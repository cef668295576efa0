//! File paths: `std::path::PathBuf`, taken by the bytes that it holds. They are the paths of Unix,
//! where `/` is the only separator and stands for the root at the beginning.

use std::path::PathBuf;

use vstd::prelude::*;

use crate::order;
use crate::text::decode_lossy;

verus! {

#[verifier::external_type_specification]
#[verifier::external_body]
pub struct ExPathBuf(std::path::PathBuf);

/// The bytes that a path holds.
pub uninterp spec fn path_bytes(path: PathBuf) -> Seq<u8>;

/// The last place of a byte, or -1.
pub open spec fn last_place(bytes: Seq<u8>, byte: u8) -> int
    decreases bytes.len(),
{
    if bytes.len() == 0 {
        -1
    } else if bytes.last() == byte {
        bytes.len() - 1
    } else {
        last_place(bytes.drop_last(), byte)
    }
}

/// The components of a path: what stands between its separators, with the root of an absolute path
/// as `/`. Nothing between two separators or behind the last is no component, nor is `.`, except at
/// the beginning of the path.
pub open spec fn components_in(path: Seq<u8>) -> Seq<Seq<u8>>
    decreases path.len(),
    via components_in_ends
{
    let cut = last_place(path, 47);
    if path.len() == 0 {
        seq![]
    } else if cut < 0 {
        seq![path]
    } else {
        let above = if cut == 0 {
            seq![seq![47u8]]
        } else {
            components_in(path.take(cut))
        };
        let piece = path.skip(cut + 1);
        if piece.len() == 0 || piece == seq![46u8] {
            above
        } else {
            above.push(piece)
        }
    }
}

#[via_fn]
proof fn components_in_ends(path: Seq<u8>) {
    lemma_last_place(path, 47);
}

proof fn lemma_last_place(bytes: Seq<u8>, byte: u8)
    ensures
        -1 <= last_place(bytes, byte) < bytes.len(),
        last_place(bytes, byte) >= 0 ==> bytes[last_place(bytes, byte)] == byte,
        forall|i: int| last_place(bytes, byte) < i < bytes.len() ==> #[trigger] bytes[i] != byte,
    decreases bytes.len(),
{
    if bytes.len() > 0 && bytes.last() != byte {
        let shorter = bytes.drop_last();
        lemma_last_place(shorter, byte);
        assert forall|i: int| last_place(bytes, byte) < i < bytes.len() implies #[trigger] bytes[i]
            != byte by {
            if i < shorter.len() {
                assert(bytes[i] == shorter[i]);
            }
        }
    }
}

pub(crate) proof fn lemma_last_place_at(bytes: Seq<u8>, byte: u8, at: int)
    requires
        0 <= at < bytes.len(),
        bytes[at] == byte,
        forall|i: int| at < i < bytes.len() ==> #[trigger] bytes[i] != byte,
    ensures
        last_place(bytes, byte) == at,
{
    lemma_last_place(bytes, byte);
}

/// The component is a name, and not the root, the directory itself or the one above.
pub open spec fn is_name(component: Seq<u8>) -> bool {
    component != seq![47u8] && component != seq![46u8] && component != seq![46u8, 46u8]
}

/// The bytes are one component wherever they stand in a path: they hold no separator, and are
/// neither nothing nor `.`.
pub open spec fn is_piece(bytes: Seq<u8>) -> bool {
    bytes.len() > 0 && !bytes.contains(47) && bytes != seq![46u8]
}

/// The last component of a path, where it is a name.
pub open spec fn name_in(path: Seq<u8>) -> Option<Seq<u8>> {
    let components = components_in(path);
    if components.len() > 0 && is_name(components.last()) {
        Some(components.last())
    } else {
        None
    }
}

/// The last component of a path without its extension: what stands before the last dot, or all of
/// it where there is no dot but at its start.
pub open spec fn stem_in(path: Seq<u8>) -> Option<Seq<u8>> {
    match name_in(path) {
        Some(name) => Some(
            if last_place(name, 46) > 0 {
                name.take(last_place(name, 46))
            } else {
                name
            },
        ),
        None => None,
    }
}

/// The extension of a path's last component: what stands behind the last dot, where there is a dot
/// that is not at its start.
pub open spec fn extension_in(path: Seq<u8>) -> Option<Seq<u8>> {
    match name_in(path) {
        Some(name) => if last_place(name, 46) > 0 {
            Some(name.skip(last_place(name, 46) + 1))
        } else {
            None
        },
        None => None,
    }
}

/// The path without its last component.
pub uninterp spec fn parent_in(path: Seq<u8>) -> Option<Seq<u8>>;

/// The components of the path without its last; there are none to tell of where the path is empty
/// or ends in the root.
pub open spec fn parent_components(path: Seq<u8>) -> Option<Seq<Seq<u8>>> {
    let components = components_in(path);
    if components.len() == 0 || components.last() == seq![47u8] {
        None
    } else {
        Some(components.drop_last())
    }
}

/// `parent` is the path without its last component.
pub open spec fn parent_is(path: Seq<u8>, parent: Seq<u8>) -> bool {
    &&& parent_in(path) == Some(parent)
    &&& parent_components(path) == Some(components_in(parent))
}

/// `tail` taken from the directory `path`: an absolute one by itself, any other behind the path, with
/// a separator between them where the path is not empty and does not end in one.
pub open spec fn path_joined(path: Seq<u8>, tail: Seq<u8>) -> Seq<u8> {
    if tail.len() > 0 && tail[0] == 47 {
        tail
    } else if path.len() == 0 || path.last() == 47 {
        path + tail
    } else {
        path.push(47) + tail
    }
}

/// The path with another extension.
pub uninterp spec fn path_with_extension(path: Seq<u8>, extension: Seq<char>) -> Seq<u8>;

/// The components of a path whose last component, a name, gets another extension.
pub open spec fn components_with_extension(path: Seq<u8>, extension: Seq<char>) -> Seq<Seq<u8>> {
    components_in(path).drop_last().push(
        stem_in(path)->Some_0.push(46) + vstd::utf8::encode_utf8(extension),
    )
}

/// Whether two paths have the same components.
pub open spec fn same_components(left: Seq<u8>, right: Seq<u8>) -> bool {
    components_in(left) == components_in(right)
}

/// The place of a component among those of other sorts: first the root, then the directory itself,
/// then the one above, and last the names.
pub open spec fn component_rank(component: Seq<u8>) -> int {
    if component == seq![47u8] {
        0
    } else if component == seq![46u8] {
        1
    } else if component == seq![46u8, 46u8] {
        2
    } else {
        3
    }
}

/// Whether `left` comes no later than `right`: by sort, and two names by their bytes.
pub open spec fn component_not_after(left: Seq<u8>, right: Seq<u8>) -> bool {
    ||| component_rank(left) < component_rank(right)
    ||| component_rank(left) == component_rank(right) && order::not_after(left, right)
}

/// Whether `left` comes no later than `right` in the lexicographic order.
pub open spec fn components_not_after(left: Seq<Seq<u8>>, right: Seq<Seq<u8>>) -> bool
    decreases left.len(),
{
    ||| left.len() == 0
    ||| right.len() > 0 && if left[0] == right[0] {
        components_not_after(left.drop_first(), right.drop_first())
    } else {
        component_not_after(left[0], right[0])
    }
}

/// Whether `left` comes no later than `right` in the order of paths, which goes by components.
pub open spec fn path_not_after(left: Seq<u8>, right: Seq<u8>) -> bool {
    components_not_after(components_in(left), components_in(right))
}

/// No path comes before an earlier one.
pub open spec fn in_path_order(paths: Seq<PathBuf>) -> bool {
    forall|i: int, j: int|
        0 <= i <= j < paths.len() ==> path_not_after(
            path_bytes(#[trigger] paths[i]),
            path_bytes(#[trigger] paths[j]),
        )
}

/// The text that bytes spell in UTF-8, where they do.
pub open spec fn utf8_text(bytes: Seq<u8>) -> Option<Seq<char>> {
    if vstd::utf8::valid_utf8(bytes) {
        Some(vstd::utf8::decode_utf8(bytes))
    } else {
        None
    }
}

/// The bytes of an optional path.
pub open spec fn optional_bytes(path: Option<PathBuf>) -> Option<Seq<u8>> {
    match path {
        Some(path) => Some(path_bytes(path)),
        None => None,
    }
}

/// `PathBuf::clone`: the copy is the same path.
pub assume_specification[ <std::path::PathBuf as Clone>::clone ](
    original: &std::path::PathBuf,
) -> (copy: std::path::PathBuf)
    ensures
        copy == *original,
;

/// `OsStr::as_encoded_bytes` on the whole path: the bytes that it holds.
#[verifier::external_body]
pub(crate) fn bytes_of(path: &PathBuf) -> (bytes: Vec<u8>)
    ensures
        bytes@ == path_bytes(*path),
{
    path.as_os_str().as_encoded_bytes().to_vec()
}

/// `PathBuf::from` on a text: the path holds the text's UTF-8.
#[verifier::external_body]
pub(crate) fn path_from(text: &str) -> (path: PathBuf)
    ensures
        path_bytes(path) == vstd::utf8::encode_utf8(text@),
{
    PathBuf::from(text)
}

/// `Path::file_name`: the last component, where it is a name and not the root, `.` or `..`.
#[verifier::external_body]
pub(crate) fn name_of(path: &PathBuf) -> (name: Option<PathBuf>)
    ensures
        optional_bytes(name) == name_in(path_bytes(*path)),
{
    path.file_name().map(PathBuf::from)
}

/// `Path::file_stem`: the file name up to its last dot, or all of it where there is no dot but at
/// its start.
#[verifier::external_body]
pub(crate) fn stem_of(path: &PathBuf) -> (stem: Option<PathBuf>)
    ensures
        optional_bytes(stem) == stem_in(path_bytes(*path)),
{
    path.file_stem().map(PathBuf::from)
}

/// `Path::extension`: what stands behind the last dot of the file name, where there is a dot that is
/// not at its start.
#[verifier::external_body]
pub(crate) fn extension_of(path: &PathBuf) -> (extension: Option<PathBuf>)
    ensures
        optional_bytes(extension) == extension_in(path_bytes(*path)),
{
    path.extension().map(PathBuf::from)
}

/// `Path::parent`. The result has a name; it has the path's components without the last, and there
/// is none where the path is empty or ends in the root.
#[verifier::external_body]
pub(crate) fn parent_of(path: &PathBuf) -> (parent: Option<PathBuf>)
    ensures
        optional_bytes(parent) == parent_in(path_bytes(*path)),
        match parent {
            Some(parent) => parent_components(path_bytes(*path)) == Some(
                components_in(path_bytes(parent)),
            ),
            None => parent_components(path_bytes(*path)) is None,
        },
{
    path.parent().map(PathBuf::from)
}

/// `Path::join`: the tail alone where it is absolute, else the tail behind the path, with a separator
/// between them where the path is not empty and does not end in one.
#[verifier::external_body]
pub(crate) fn join_path(path: &PathBuf, tail: &PathBuf) -> (joined: PathBuf)
    ensures
        path_bytes(joined) == path_joined(path_bytes(*path), path_bytes(*tail)),
{
    path.join(tail)
}

/// `Path::with_extension`, which takes no extension that holds a path separator. The result has a
/// name; where the last component is a name and the extension is not empty, that component becomes
/// its stem, a dot and the extension, and the components before it stay.
#[verifier::external_body]
pub(crate) fn with_extension(path: &PathBuf, extension: &str) -> (changed: PathBuf)
    requires
        !extension@.contains('/') && !extension@.contains('\\'),
    ensures
        path_bytes(changed) == path_with_extension(path_bytes(*path), extension@),
        name_in(path_bytes(*path)) is Some && extension@.len() > 0 ==> components_in(
            path_bytes(changed),
        ) == components_with_extension(path_bytes(*path), extension@),
{
    path.with_extension(extension)
}

/// `<PathBuf as PartialEq>::eq`: two paths are equal when their components are, which
/// `Path::components` tells.
#[verifier::external_body]
pub(crate) fn same_path(left: &PathBuf, right: &PathBuf) -> (same: bool)
    ensures
        same == (components_in(path_bytes(*left)) == components_in(path_bytes(*right))),
{
    left == right
}

/// `<[PathBuf]>::sort`: the same paths in ascending order, which is the lexicographic order of their
/// components.
#[verifier::external_body]
pub(crate) fn sort_paths(paths: Vec<PathBuf>) -> (sorted: Vec<PathBuf>)
    ensures
        sorted@.to_multiset() == paths@.to_multiset(),
        forall|i: int, j: int|
            0 <= i <= j < sorted@.len() ==> path_not_after(
                path_bytes(#[trigger] sorted@[i]),
                path_bytes(#[trigger] sorted@[j]),
            ),
{
    let mut sorted = paths;
    sorted.sort();
    sorted
}

/// `String::from_utf8`: the text that the bytes spell, where they are valid UTF-8.
#[verifier::external_body]
pub(crate) fn decode(bytes: Vec<u8>) -> (text: Option<String>)
    ensures
        text is Some <==> utf8_text(bytes@) is Some,
        text matches Some(text) ==> utf8_text(bytes@) == Some(text@),
{
    String::from_utf8(bytes).ok()
}

/// The text of a path, with what is no UTF-8 replaced.
pub open spec fn path_text(path: PathBuf) -> Seq<char> {
    crate::text::lossy_text(path_bytes(path))
}

/// The text of a path, with what is no UTF-8 replaced.
pub fn display(path: &PathBuf) -> (text: String)
    ensures
        text@ == path_text(*path),
{
    decode_lossy(bytes_of(path).as_slice())
}

/// The text of an optional path component, where it is UTF-8.
pub open spec fn component_text(component: Option<Seq<u8>>) -> Option<Seq<char>> {
    match component {
        Some(bytes) => utf8_text(bytes),
        None => None,
    }
}

/// The characters of an optional text.
pub open spec fn optional_text(text: Option<String>) -> Option<Seq<char>> {
    match text {
        Some(text) => Some(text@),
        None => None,
    }
}

/// The text of an optional path component, where it is UTF-8.
pub fn decode_component(component: Option<PathBuf>) -> (text: Option<String>)
    ensures
        optional_text(text) == component_text(optional_bytes(component)),
{
    match component {
        Some(component) => decode(bytes_of(&component)),
        None => None,
    }
}

/// `name` taken from the directory `path`.
pub open spec fn child_in(path: Seq<u8>, name: Seq<char>) -> Seq<u8> {
    path_joined(path, vstd::utf8::encode_utf8(name))
}

/// Whether the path holds nothing.
pub fn is_empty_path(path: &PathBuf) -> (empty: bool)
    ensures
        empty == (path_bytes(*path).len() == 0),
{
    bytes_of(path).len() == 0
}

/// `name` taken from the directory `path`.
pub fn child(path: &PathBuf, name: &str) -> (joined: PathBuf)
    ensures
        path_bytes(joined) == child_in(path_bytes(*path), name@),
{
    join_path(path, &path_from(name))
}

/// A single component joined to a path becomes its last component, and the path without it has the
/// components of the directory that it was joined to.
pub proof fn joined_piece_is_last(path: Seq<u8>, piece: Seq<u8>)
    requires
        is_piece(piece),
    ensures
        components_in(path_joined(path, piece)) == components_in(path).push(piece),
        parent_components(path_joined(path, piece)) == Some(components_in(path)),
{
    let whole = path_joined(path, piece);
    assert(piece[0] != 47);
    let cut = last_place(whole, 47);
    lemma_last_place(whole, 47);
    if path.len() == 0 {
        assert(whole =~= piece);
        assert(components_in(path).push(piece) =~= seq![piece]);
    } else {
        let start = whole.len() - piece.len();
        assert(whole[start - 1] == 47);
        assert forall|i: int| start <= i < whole.len() implies #[trigger] whole[i] != 47 by {
            assert(whole[i] == piece[i - start]);
        }
        assert(cut == start - 1);
        assert(whole.skip(start) =~= piece);
        if path.last() == 47 {
            assert(whole.take(cut) =~= path.take(cut));
            assert(path.skip(path.len() as int).len() == 0);
        } else {
            assert(whole.take(cut) =~= path);
        }
    }
    assert(components_in(path).push(piece).drop_last() =~= components_in(path));
    assert(seq![47u8][0] == 47u8);
}

/// An ASCII text without a separator that does not begin with a dot is a single component.
pub(crate) proof fn lemma_text_is_piece(text: Seq<char>)
    requires
        vstd::utf8::is_ascii_chars(text),
        text.len() > 0,
        !text.contains('/'),
        text[0] != '.',
    ensures
        is_piece(vstd::utf8::encode_utf8(text)),
{
    let bytes = vstd::utf8::encode_utf8(text);
    vstd::utf8::is_ascii_chars_encode_utf8(text);
    assert forall|i: int| 0 <= i < bytes.len() implies #[trigger] bytes[i] != 47 by {
        assert(text.contains(text[i]));
    }
    assert(bytes[0] == text[0] as u8);
}

/// The last component of a path, where it is a name, is a single component wherever it stands.
pub proof fn name_is_piece(path: Seq<u8>)
    ensures
        name_in(path) matches Some(name) ==> is_piece(name),
    decreases path.len(),
{
    let cut = last_place(path, 47);
    lemma_last_place(path, 47);
    if path.len() > 0 && cut >= 0 {
        let piece = path.skip(cut + 1);
        if piece.len() == 0 || piece == seq![46u8] {
            if cut > 0 {
                name_is_piece(path.take(cut));
            }
        } else {
            assert forall|i: int| 0 <= i < piece.len() implies #[trigger] piece[i] != 47 by {
                assert(piece[i] == path[cut + 1 + i]);
            }
        }
    }
}

pub(crate) proof fn lemma_stem_and_extension(path: Seq<u8>)
    ensures
        stem_in(path) matches Some(stem) ==> !stem.contains(47),
        extension_in(path) matches Some(extension) ==> !extension.contains(47),
{
    name_is_piece(path);
    if let Some(name) = name_in(path) {
        lemma_last_place(name, 46);
        assert forall|i: int| 0 <= i < name.len() implies #[trigger] name[i] != 47 by {
            assert(name.contains(name[i]));
        }
    }
}

/// The order of paths agrees with their equality: two paths of which neither comes after the other
/// have the same components.
pub proof fn path_order_tells_paths_apart(left: Seq<u8>, right: Seq<u8>)
    requires
        path_not_after(left, right),
        path_not_after(right, left),
    ensures
        same_components(left, right),
{
    lemma_components_antisymmetric(components_in(left), components_in(right));
}

proof fn lemma_components_antisymmetric(left: Seq<Seq<u8>>, right: Seq<Seq<u8>>)
    requires
        components_not_after(left, right),
        components_not_after(right, left),
    ensures
        left == right,
    decreases left.len(),
{
    if left.len() > 0 && right.len() > 0 {
        if left[0] != right[0] {
            order::lemma_not_after_antisymmetric(left[0], right[0]);
        }
        lemma_components_antisymmetric(left.drop_first(), right.drop_first());
        assert(left =~= seq![left[0]] + left.drop_first());
        assert(right =~= seq![right[0]] + right.drop_first());
    } else {
        assert(left =~= right);
    }
}

/// A single component becomes the last one of the directory that it is taken from, and a path holds
/// nothing exactly where it has no bytes.
pub proof fn a_child_stands_in_its_directory(
    directory: PathBuf,
    name: &str,
    joined: PathBuf,
    empty: bool,
)
    requires
        call_ensures(child, (&directory, name), joined),
        is_piece(vstd::utf8::encode_utf8(name@)),
        call_ensures(is_empty_path, (&directory,), empty),
    ensures
        components_in(path_bytes(joined)) == components_in(path_bytes(directory)).push(
            vstd::utf8::encode_utf8(name@),
        ),
        empty <==> path_bytes(directory).len() == 0,
{
    joined_piece_is_last(path_bytes(directory), vstd::utf8::encode_utf8(name@));
}

/// The text of a component is the one that its bytes spell, where they spell one.
pub proof fn a_component_is_read_as_text(
    component: PathBuf,
    text: Seq<char>,
    read: Option<String>,
    nothing: Option<String>,
)
    requires
        call_ensures(decode_component, (Some(component),), read),
        call_ensures(decode_component, (None,), nothing),
    ensures
        path_bytes(component) == vstd::utf8::encode_utf8(text) ==> read is Some
            && read->Some_0@ == text,
        !vstd::utf8::valid_utf8(path_bytes(component)) ==> read is None,
        nothing is None,
{
    broadcast use {vstd::utf8::encode_utf8_valid_utf8, vstd::utf8::encode_utf8_decode_utf8};

}

} // verus!
