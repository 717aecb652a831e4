//! Filename allocation: a random token joined to the classified subtype.
//!
//! The token is the canonical text of a random UUID. Two allocations are told
//! apart by their tokens alone, so names never depend on anything a client
//! supplies except for the extension behind the dot.

use vstd::prelude::*;
use vstd::string::*;
use crate::mime_type::MimeType;
use crate::storage::{is_plain_name, is_separator};

verus! {

/// Number of characters in a token.
pub const TOKEN_LEN: usize = 36;

/// A lower-case hexadecimal digit.
pub open spec fn is_hex_digit(c: char) -> bool {
    ('0' <= c && c <= '9') || ('a' <= c && c <= 'f')
}

/// The positions of a token that hold a hyphen.
pub open spec fn is_hyphen_position(i: int) -> bool {
    i == 8 || i == 13 || i == 18 || i == 23
}

/// The canonical text of a random UUID: 32 lower-case hexadecimal digits in
/// groups of 8, 4, 4, 4 and 12, hyphens between the groups, the version digit
/// `4` and a variant digit of `8`, `9`, `a` or `b`.
pub open spec fn is_token(token: Seq<char>) -> bool {
    &&& token.len() == TOKEN_LEN
    &&& forall|i: int|
        0 <= i < TOKEN_LEN ==> if is_hyphen_position(i) {
            #[trigger] token[i] == '-'
        } else {
            is_hex_digit(token[i])
        }
    &&& token[14] == '4'
    &&& (token[19] == '8' || token[19] == '9' || token[19] == 'a' || token[19] == 'b')
}

/// The name a stored image gets: token, dot, extension.
pub open spec fn filename_of(token: Seq<char>, extension: Seq<char>) -> Seq<char> {
    token + seq!['.'] + extension
}

/// The leading part of a filename where its token stands.
pub open spec fn token_part(name: Seq<char>) -> Seq<char> {
    name.take(TOKEN_LEN as int)
}

/// What follows the token and the dot in a filename.
pub open spec fn extension_part(name: Seq<char>) -> Seq<char> {
    name.skip(TOKEN_LEN + 1)
}

/// Whether `name` is a token, a dot and some extension.
pub open spec fn is_filename(name: Seq<char>) -> bool {
    &&& name.len() > TOKEN_LEN
    &&& is_token(token_part(name))
    &&& name[TOKEN_LEN as int] == '.'
}

/// Calls `uuid::Uuid::new_v4` and renders the value with its `Display` impl.
///
/// Trusted: the text is the hyphenated lower-case form, with the version and
/// variant digits that `new_v4` fixes. Which token comes out is left open, as
/// it is random; in particular nothing here says that two calls differ.
/// `new_v4` aborts where the operating system cannot supply random bytes.
#[verifier::external_body]
fn new_token() -> (token: String)
    ensures
        is_token(token@),
{
    uuid::Uuid::new_v4().to_string()
}

/// Joins a token and an extension into a filename.
pub fn filename_from(token: String, extension: &str) -> (name: String)
    ensures
        name@ == filename_of(token@, extension@),
{
    proof {
        reveal_strlit(".");
        assert("."@ =~= seq!['.']);
    }
    let mut name = token;
    name.append(".");
    name.append(extension);
    name
}

/// Allocates the name under which an image of the given type is stored.
///
/// The name is a fresh token followed by a dot and the subtype, verbatim,
/// whatever the subtype holds. There is no error case.
pub fn uuid_filename(file_extension: &MimeType) -> (name: String)
    ensures
        is_filename(name@),
        extension_part(name@) == file_extension@.subtype,
        name@ == filename_of(token_part(name@), file_extension@.subtype),
{
    let token = new_token();
    proof {
        lemma_filename_parts(token@, file_extension@.subtype);
    }
    filename_from(token, file_extension.subtype.as_str())
}

/// A filename built from a token falls apart into that token and the
/// extension it was built with.
pub proof fn lemma_filename_parts(token: Seq<char>, extension: Seq<char>)
    requires
        is_token(token),
    ensures
        is_filename(filename_of(token, extension)),
        token_part(filename_of(token, extension)) == token,
        extension_part(filename_of(token, extension)) == extension,
{
    let name = filename_of(token, extension);
    assert(token_part(name) =~= token);
    assert(extension_part(name) =~= extension);
}

/// Every filename is the join of its token part and its extension part.
pub proof fn lemma_filename_is_join(name: Seq<char>)
    requires
        is_filename(name),
    ensures
        name == filename_of(token_part(name), extension_part(name)),
{
    assert(name =~= filename_of(token_part(name), extension_part(name)));
}

/// Allocations with different tokens never give the same name, whatever the
/// extensions are.
pub proof fn lemma_distinct_tokens_distinct_names(
    token_a: Seq<char>,
    extension_a: Seq<char>,
    token_b: Seq<char>,
    extension_b: Seq<char>,
)
    requires
        is_token(token_a),
        is_token(token_b),
        token_a != token_b,
    ensures
        filename_of(token_a, extension_a) != filename_of(token_b, extension_b),
{
    lemma_filename_parts(token_a, extension_a);
    lemma_filename_parts(token_b, extension_b);
}

/// Among any number of allocations whose tokens are pairwise different, the
/// names are pairwise different too.
pub proof fn lemma_names_pairwise_distinct(tokens: Seq<Seq<char>>, extension: Seq<char>)
    requires
        forall|i: int| 0 <= i < tokens.len() ==> is_token(#[trigger] tokens[i]),
        forall|i: int, j: int|
            0 <= i < j < tokens.len() ==> #[trigger] tokens[i] != #[trigger] tokens[j],
    ensures
        forall|i: int, j: int|
            0 <= i < j < tokens.len() ==> filename_of(#[trigger] tokens[i], extension)
                != filename_of(#[trigger] tokens[j], extension),
{
    assert forall|i: int, j: int| 0 <= i < j < tokens.len() implies filename_of(
        #[trigger] tokens[i],
        extension,
    ) != filename_of(#[trigger] tokens[j], extension) by {
        lemma_distinct_tokens_distinct_names(tokens[i], extension, tokens[j], extension);
    }
}

/// A token holds neither a path separator nor a dot.
pub proof fn lemma_token_has_no_separator(token: Seq<char>, i: int)
    requires
        is_token(token),
        0 <= i < token.len(),
    ensures
        token[i] != '/',
        token[i] != '\\',
        token[i] != '.',
{
    if is_hyphen_position(i) {
        assert(token[i] == '-');
    } else {
        assert(is_hex_digit(token[i]));
    }
}

/// A name leads nowhere else: where the extension holds no path separator,
/// the whole name holds none.
pub proof fn lemma_name_is_plain(token: Seq<char>, extension: Seq<char>)
    requires
        is_token(token),
        is_plain_name(extension),
    ensures
        is_plain_name(filename_of(token, extension)),
{
    let name = filename_of(token, extension);
    assert forall|i: int| 0 <= i < name.len() implies !is_separator(#[trigger] name[i]) by {
        if i < token.len() {
            lemma_token_has_no_separator(token, i);
        } else if i > token.len() {
            assert(name[i] == extension[i - token.len() - 1]);
        }
    }
}

} // verus!
