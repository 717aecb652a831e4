use image_ingest::data_url::{decode_payload, InvalidPayload};
use image_ingest::mime_type::MimeType;
use image_ingest::pipeline::{Action, Body, Event, Failure, Image, Pipeline, Stage};
use image_ingest::storage::StoredAsset;
use image_ingest::thumbnail::resize_image;
use std::collections::{HashMap, VecDeque};

const TEN_BY_TEN_PNG: &str = "iVBORw0KGgoAAAANSUhEUgAAAAoAAAAKCAYAAACNMs+9AAAABmJLR0QA/wD/AP+gvaeTAAAAB3RJTUUH1ggDCwMADQ4NnwAAAFVJREFUGJWNkMEJADEIBEcbSDkXUnfSgnBVeZ8LSAjiwjyEQXSFEIcHGP9oAi+H0Bymgx9MhxbFdZE2a0s9kTZdw01ZhhYkABSwgmf1Z6r1SNyfFf4BZ+ZUExcNUQUAAAAASUVORK5CYII=";

const RENDER_PNG: &str = "http://raw.githubusercontent.com/ilslv/raytracing/master/render.png";

fn png() -> Vec<u8> {
    decode_payload(TEN_BY_TEN_PNG.as_bytes()).unwrap()
}

fn data_url(payload: &str) -> String {
    format!("data:image/png;base64,{}", payload)
}

fn mime(type_: &str, subtype: &str) -> Option<MimeType> {
    Some(MimeType { type_: type_.to_string(), subtype: subtype.to_string() })
}

fn halves(bytes: &[u8]) -> Vec<Vec<u8>> {
    let middle = bytes.len() / 2;
    vec![bytes[..middle].to_vec(), bytes[middle..].to_vec()]
}

/// A remote location as the stand-in network knows it.
struct Remote {
    status: u16,
    content_type: Option<String>,
    chunks: Vec<Vec<u8>>,
    breaks_off: bool,
}

/// One item of a request.
enum Item {
    Json(Image),
    Part { content_type: Option<MimeType>, chunks: Vec<Vec<u8>>, breaks_off: bool },
}

/// Network and disk, both in memory.
struct World {
    remotes: HashMap<String, Remote>,
    files: HashMap<String, Vec<u8>>,
    creations_fail: bool,
    writes_fail: bool,
    log: Vec<String>,
}

impl World {
    fn new() -> World {
        World {
            remotes: HashMap::new(),
            files: HashMap::new(),
            creations_fail: false,
            writes_fail: false,
            log: Vec::new(),
        }
    }

    fn serve(&mut self, url: &str, content_type: Option<&str>, body: &[u8]) {
        self.remotes.insert(
            url.to_string(),
            Remote {
                status: 200,
                content_type: content_type.map(|text| text.to_string()),
                chunks: halves(body),
                breaks_off: false,
            },
        );
    }
}

/// Drives a pipeline over the items, doing what it asks for in `world`.
fn serve_request(items: Vec<Item>, interrupted: bool, world: &mut World) -> Result<Vec<String>, Failure> {
    let mut pipeline = Pipeline::new();
    let mut items: VecDeque<Item> = items.into();
    let mut body: VecDeque<Vec<u8>> = VecDeque::new();
    let mut body_breaks_off = false;
    let mut chunk: Vec<u8> = Vec::new();
    let mut open_file: Option<String> = None;
    let mut action = Action::AwaitItem;
    loop {
        let event = match action {
            Action::AwaitItem => match items.pop_front() {
                Some(Item::Json(image)) => Event::Image(image),
                Some(Item::Part { content_type, chunks, breaks_off }) => {
                    body = chunks.into();
                    body_breaks_off = breaks_off;
                    Event::Field(content_type)
                }
                None => {
                    if interrupted {
                        Event::Interrupted
                    } else {
                        Event::End
                    }
                }
            },
            Action::Fetch { url } => {
                world.log.push(format!("fetch {}", url));
                match world.remotes.get(&url) {
                    Some(remote) => {
                        body = remote.chunks.clone().into();
                        body_breaks_off = remote.breaks_off;
                        Event::Fetched {
                            status: remote.status,
                            content_type: remote.content_type.clone(),
                        }
                    }
                    None => Event::FetchFailed,
                }
            }
            Action::Create { path } => {
                world.log.push(format!("create {}", path));
                if world.creations_fail {
                    Event::CreateFailed
                } else {
                    world.files.insert(path.clone(), Vec::new());
                    open_file = Some(path);
                    Event::Created
                }
            }
            Action::AwaitChunk => match body.pop_front() {
                Some(next) => {
                    chunk = next;
                    Event::Chunk
                }
                None => {
                    if body_breaks_off {
                        Event::BodyFailed
                    } else {
                        Event::BodyEnded
                    }
                }
            },
            Action::WriteChunk => {
                if world.writes_fail {
                    Event::WriteFailed
                } else {
                    let path = open_file.clone().unwrap();
                    world.log.push(format!("write {}", path));
                    world.files.get_mut(&path).unwrap().extend_from_slice(&chunk);
                    Event::Written
                }
            }
            Action::Write { bytes } => {
                if world.writes_fail {
                    Event::WriteFailed
                } else {
                    let path = open_file.clone().unwrap();
                    world.log.push(format!("write {}", path));
                    world.files.get_mut(&path).unwrap().extend_from_slice(&bytes);
                    Event::Written
                }
            }
            Action::Thumbnail { asset } => {
                world.log.push(format!("thumbnail {}", asset.filename));
                assert!(!world.files.contains_key(&asset.preview_path));
                let full = world.files.get(&asset.full_path).unwrap().clone();
                match resize_image(&asset.filename, &full) {
                    Ok(preview) => {
                        world.files.insert(asset.preview_path.clone(), preview.data);
                        Event::Thumbnailed
                    }
                    Err(_) => Event::ThumbnailFailed,
                }
            }
            Action::Respond { filenames } => return Ok(filenames),
            Action::Fail { failure } => return Err(failure),
        };
        let (next, asked) = pipeline.step(event);
        pipeline = next;
        action = asked;
    }
}

fn json(images: Vec<Image>) -> Vec<Item> {
    images.into_iter().map(Item::Json).collect()
}

fn part(content_type: Option<MimeType>, body: &[u8]) -> Item {
    Item::Part { content_type, chunks: halves(body), breaks_off: false }
}

fn dimensions(encoded: &[u8]) -> (u32, u32) {
    let picture = image::load_from_memory(encoded).unwrap();
    (picture.width(), picture.height())
}

#[test]
fn json_img_test() {
    let mut world = World::new();
    world.serve(RENDER_PNG, Some("image/png"), &png());
    let images = vec![
        Image::Url(RENDER_PNG.into()),
        Image::Base64(data_url(TEN_BY_TEN_PNG)),
    ];
    let resp = serve_request(json(images), false, &mut world).unwrap();
    assert_eq!(resp.len(), 2);
}

#[test]
fn mixed_json_request_stores_both_images() {
    let mut world = World::new();
    world.serve("http://example.com/pic.png", Some("image/png"), &png());
    let images = vec![
        Image::Url("http://example.com/pic.png".to_string()),
        Image::Base64(data_url(TEN_BY_TEN_PNG)),
    ];
    let names = serve_request(json(images), false, &mut world).unwrap();
    assert_eq!(names.len(), 2);
    assert_ne!(names[0], names[1]);
    for name in &names {
        assert_eq!(name.len(), 40);
        assert!(name.ends_with(".png"));
        let full = world.files.get(&format!("images/full/{}", name)).unwrap();
        assert_eq!(full, &png());
        let preview = world.files.get(&format!("images/preview/{}", name)).unwrap();
        assert_eq!(dimensions(preview), (100, 100));
    }
    assert_eq!(world.files.len(), 4);
}

#[test]
fn steps_of_an_item_run_in_order() {
    let mut world = World::new();
    world.serve("http://example.com/pic.png", Some("image/png"), &png());
    let images = vec![Image::Url("http://example.com/pic.png".to_string())];
    let names = serve_request(json(images), false, &mut world).unwrap();
    let full = format!("images/full/{}", names[0]);
    assert_eq!(
        world.log,
        vec![
            "fetch http://example.com/pic.png".to_string(),
            format!("create {}", full),
            format!("write {}", full),
            format!("write {}", full),
            format!("thumbnail {}", names[0]),
        ]
    );
}

#[test]
fn data_url_is_written_as_one_chunk() {
    let mut world = World::new();
    let names =
        serve_request(json(vec![Image::Base64(data_url(TEN_BY_TEN_PNG))]), false, &mut world)
            .unwrap();
    let full = format!("images/full/{}", names[0]);
    assert_eq!(
        world.log,
        vec![format!("create {}", full), format!("write {}", full), format!("thumbnail {}", names[0])]
    );
}

#[test]
fn malformed_base64_fails_the_request() {
    let mut world = World::new();
    let images = vec![Image::Base64("data:image/png;base64,%%%invalid%%%".to_string())];
    assert_eq!(serve_request(json(images), false, &mut world), Err(Failure::Decode));
}

#[test]
fn malformed_base64_fails_the_request_after_earlier_items_were_stored() {
    let mut world = World::new();
    let images = vec![
        Image::Base64(data_url(TEN_BY_TEN_PNG)),
        Image::Base64("data:image/png;base64,%%%invalid%%%".to_string()),
        Image::Base64(data_url(TEN_BY_TEN_PNG)),
    ];
    assert_eq!(serve_request(json(images), false, &mut world), Err(Failure::Decode));
    let previews = world.files.keys().filter(|path| path.starts_with("images/preview/")).count();
    assert_eq!(previews, 1);
    let stored = world.files.keys().filter(|path| path.starts_with("images/full/")).count();
    assert_eq!(stored, 2);
}

#[test]
fn remote_text_file_is_skipped() {
    let mut world = World::new();
    world.serve("http://example.com/notes.txt", Some("text/plain"), b"hello");
    let images = vec![Image::Url("http://example.com/notes.txt".to_string())];
    assert_eq!(serve_request(json(images), false, &mut world), Ok(Vec::new()));
    assert!(world.files.is_empty());
}

#[test]
fn remote_without_content_type_is_skipped() {
    let mut world = World::new();
    world.serve("http://example.com/a", None, &png());
    world.serve("http://example.com/b", Some("no media type"), &png());
    let images = vec![
        Image::Url("http://example.com/a".to_string()),
        Image::Url("http://example.com/b".to_string()),
    ];
    assert_eq!(serve_request(json(images), false, &mut world), Ok(Vec::new()));
    assert!(world.files.is_empty());
}

#[test]
fn text_that_is_no_data_url_is_skipped() {
    let mut world = World::new();
    let images = vec![
        Image::Base64("AAAA".to_string()),
        Image::Base64("data:text/plain;base64,aGVsbG8=".to_string()),
        Image::Base64("data:image;base64,AAAA".to_string()),
    ];
    assert_eq!(serve_request(json(images), false, &mut world), Ok(Vec::new()));
    assert!(world.files.is_empty());
}

#[test]
fn empty_request_answers_with_no_names() {
    let mut world = World::new();
    assert_eq!(serve_request(Vec::new(), false, &mut world), Ok(Vec::new()));
}

#[test]
fn unreachable_remote_fails_the_request() {
    let mut world = World::new();
    world.serve("http://example.com/pic.png", Some("image/png"), &png());
    let images = vec![
        Image::Url("http://example.com/pic.png".to_string()),
        Image::Url("http://nowhere.invalid/pic.png".to_string()),
        Image::Url("http://example.com/pic.png".to_string()),
    ];
    assert_eq!(serve_request(json(images), false, &mut world), Err(Failure::Fetch));
    assert_eq!(world.log.iter().filter(|line| line.starts_with("fetch")).count(), 2);
}

#[test]
fn remote_that_answers_with_an_error_fails_the_request() {
    for status in [199u16, 300, 404, 500] {
        let mut world = World::new();
        world.serve("http://example.com/gone.png", Some("image/png"), &png());
        world.remotes.get_mut("http://example.com/gone.png").unwrap().status = status;
        let images = vec![Image::Url("http://example.com/gone.png".to_string())];
        assert_eq!(serve_request(json(images), false, &mut world), Err(Failure::Fetch));
        assert!(world.files.is_empty());
    }
    for status in [200u16, 204, 299] {
        let mut world = World::new();
        world.serve("http://example.com/here.png", Some("image/png"), &png());
        world.remotes.get_mut("http://example.com/here.png").unwrap().status = status;
        let images = vec![Image::Url("http://example.com/here.png".to_string())];
        assert_eq!(serve_request(json(images), false, &mut world).map(|names| names.len()), Ok(1));
    }
}

#[test]
fn multipart_request_keeps_only_the_image_field() {
    let mut world = World::new();
    let parts = vec![part(mime("text", "plain"), b"hello"), part(mime("image", "png"), &png())];
    let names = serve_request(parts, false, &mut world).unwrap();
    assert_eq!(names.len(), 1);
    assert!(names[0].ends_with(".png"));
    assert_eq!(world.files.get(&format!("images/full/{}", names[0])), Some(&png()));
    assert_eq!(world.files.len(), 2);
}

#[test]
fn multipart_field_without_content_type_is_skipped() {
    let mut world = World::new();
    let names = serve_request(vec![part(None, &png())], false, &mut world).unwrap();
    assert!(names.is_empty());
    assert!(world.files.is_empty());
}

#[test]
fn names_come_in_the_order_of_the_items() {
    let mut world = World::new();
    let gif = {
        let pixels = image::RgbaImage::new(3, 3);
        let mut buffer = std::io::Cursor::new(Vec::new());
        image::DynamicImage::ImageRgba8(pixels)
            .write_to(&mut buffer, image::ImageFormat::Gif)
            .unwrap();
        buffer.into_inner()
    };
    let parts = vec![
        part(mime("image", "png"), &png()),
        part(mime("application", "json"), b"{}"),
        part(mime("image", "gif"), &gif),
        part(mime("image", "png"), &png()),
    ];
    let names = serve_request(parts, false, &mut world).unwrap();
    assert_eq!(names.len(), 3);
    assert!(names[0].ends_with(".png"));
    assert!(names[1].ends_with(".gif"));
    assert!(names[2].ends_with(".png"));
}

#[test]
fn interrupted_multipart_request_fails() {
    let mut world = World::new();
    let parts = vec![part(mime("image", "png"), &png())];
    assert_eq!(serve_request(parts, true, &mut world), Err(Failure::Transfer));
    let mut world = World::new();
    assert_eq!(serve_request(Vec::new(), true, &mut world), Err(Failure::Transfer));
    let (pipeline, action) = Pipeline::new().step(Event::Interrupted);
    assert!(matches!(action, Action::Fail { failure: Failure::Transfer }));
    assert!(matches!(pipeline.stage, Stage::Failed { failure: Failure::Transfer }));
    assert_eq!(Failure::Transfer.status(), 500);
}

#[test]
fn image_whose_subtype_leads_elsewhere_is_skipped() {
    for subtype in ["../x", "a/b", "..\\x", "/", "png/../../etc"] {
        let mut world = World::new();
        let parts = vec![part(mime("image", subtype), &png())];
        assert_eq!(serve_request(parts, false, &mut world), Ok(Vec::new()), "on {:?}", subtype);
        assert!(world.files.is_empty());
        assert!(world.log.is_empty());
    }
}

#[test]
fn every_file_asked_for_lies_right_under_a_root() {
    let mut world = World::new();
    let parts = vec![
        part(mime("image", "png"), &png()),
        part(mime("image", "../png"), &png()),
        part(mime("image", "png"), &png()),
    ];
    let names = serve_request(parts, false, &mut world).unwrap();
    assert_eq!(names.len(), 2);
    for path in world.files.keys() {
        let name = path
            .strip_prefix("images/full/")
            .or_else(|| path.strip_prefix("images/preview/"))
            .unwrap();
        assert!(!name.contains('/') && !name.contains('\\'));
        assert!(names.iter().any(|known| known == name));
    }
}

#[test]
fn body_that_breaks_off_fails_the_request() {
    let mut world = World::new();
    let broken = Item::Part {
        content_type: mime("image", "png"),
        chunks: vec![png()[..20].to_vec()],
        breaks_off: true,
    };
    assert_eq!(serve_request(vec![broken], false, &mut world), Err(Failure::Transfer));
    assert!(!world.log.iter().any(|line| line.starts_with("thumbnail")));
}

#[test]
fn file_that_cannot_be_created_fails_the_request() {
    let mut world = World::new();
    world.creations_fail = true;
    let parts = vec![part(mime("image", "png"), &png())];
    assert_eq!(serve_request(parts, false, &mut world), Err(Failure::Create));
}

#[test]
fn write_that_fails_fails_the_request() {
    let mut world = World::new();
    world.writes_fail = true;
    let parts = vec![part(mime("image", "png"), &png())];
    assert_eq!(serve_request(parts, false, &mut world), Err(Failure::Write));
    let mut world = World::new();
    world.writes_fail = true;
    let images = vec![Image::Base64(data_url(TEN_BY_TEN_PNG))];
    assert_eq!(serve_request(json(images), false, &mut world), Err(Failure::Write));
}

#[test]
fn image_that_cannot_be_read_fails_the_request() {
    let mut world = World::new();
    let parts = vec![part(mime("image", "png"), b"no picture at all")];
    assert_eq!(serve_request(parts, false, &mut world), Err(Failure::Thumbnail));
    let parts = vec![part(mime("image", "svg"), b"<svg/>")];
    assert_eq!(serve_request(parts, false, &mut world), Err(Failure::Thumbnail));
}

#[test]
fn event_out_of_order_fails_the_request() {
    let (pipeline, action) = Pipeline::new().step(Event::Written);
    assert!(matches!(action, Action::Fail { failure: Failure::OutOfOrder }));
    assert!(matches!(pipeline.stage, Stage::Failed { failure: Failure::OutOfOrder }));
    let (pipeline, _) = Pipeline::new().step(Event::Field(mime("image", "png")));
    let (_, action) = pipeline.step(Event::Thumbnailed);
    assert!(matches!(action, Action::Fail { failure: Failure::OutOfOrder }));
}

#[test]
fn finished_request_repeats_its_answer() {
    let (pipeline, action) = Pipeline::new().step(Event::End);
    assert!(matches!(action, Action::Respond { ref filenames } if filenames.is_empty()));
    let (pipeline, action) = pipeline.step(Event::Field(mime("image", "png")));
    assert!(matches!(action, Action::Respond { ref filenames } if filenames.is_empty()));
    assert!(matches!(pipeline.stage, Stage::Done));
    let (pipeline, _) = Pipeline::new().step(Event::Image(Image::Url("u".to_string())));
    let (pipeline, action) = pipeline.step(Event::FetchFailed);
    assert!(matches!(action, Action::Fail { failure: Failure::Fetch }));
    let (_, action) = pipeline.step(Event::End);
    assert!(matches!(action, Action::Fail { failure: Failure::Fetch }));
}

#[test]
fn accepted_image_gets_its_file_first() {
    let (pipeline, action) = Pipeline::new().step(Event::Field(mime("image", "png")));
    match (pipeline.stage, action) {
        (Stage::Creating { asset, body }, Action::Create { path }) => {
            assert_eq!(path, format!("images/full/{}", asset.filename));
            assert_eq!(asset.full_path, path);
            assert_eq!(asset.preview_path, format!("images/preview/{}", asset.filename));
            assert_eq!(asset.filename.len(), 40);
            assert!(asset.filename.ends_with(".png"));
            assert!(matches!(body, Body::Stream));
        }
        _ => panic!("the file is not being created"),
    }
}

#[test]
fn decoded_payload_is_written_and_undecoded_fails() {
    let asset = StoredAsset::new("token.png".to_string());
    let (pipeline, action) = Pipeline::store(Vec::new(), asset, Ok(vec![1, 2, 3]));
    assert!(matches!(action, Action::Write { ref bytes } if bytes == &vec![1, 2, 3]));
    assert!(matches!(pipeline.stage, Stage::Storing { last: true, .. }));
    let asset = StoredAsset::new("token.png".to_string());
    let (pipeline, action) = Pipeline::store(vec!["a.png".to_string()], asset, Err(InvalidPayload));
    assert!(matches!(action, Action::Fail { failure: Failure::Decode }));
    assert!(matches!(pipeline.stage, Stage::Failed { failure: Failure::Decode }));
    assert_eq!(pipeline.done, vec!["a.png".to_string()]);
}

#[test]
fn failed_fetch_is_the_only_failure_blamed_on_the_client() {
    assert_eq!(Failure::Fetch.status(), 400);
    assert_eq!(Failure::Create.status(), 500);
    assert_eq!(Failure::Transfer.status(), 500);
    assert_eq!(Failure::Write.status(), 500);
    assert_eq!(Failure::Decode.status(), 500);
    assert_eq!(Failure::Thumbnail.status(), 500);
    assert_eq!(Failure::OutOfOrder.status(), 500);
}
