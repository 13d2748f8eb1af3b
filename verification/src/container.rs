//! The persisted container: a JSON array whose elements are separated,
//! never terminated, by the separator.

use vstd::prelude::*;

verus! {

/// The marker that opens the container.
pub open spec fn opening() -> Seq<char> {
    "[\r\n"@
}

/// The separator between two elements.
pub open spec fn separator() -> Seq<char> {
    ",\n"@
}

/// The marker that closes the container.
pub open spec fn closing() -> Seq<char> {
    "\n]"@
}

/// The elements with a separator between each two neighbours.
pub open spec fn joined(texts: Seq<Seq<char>>) -> Seq<char>
    decreases texts.len(),
{
    if texts.len() == 0 {
        Seq::empty()
    } else if texts.len() == 1 {
        texts[0]
    } else {
        joined(texts.drop_last()) + separator() + texts.last()
    }
}

/// The whole container that holds `texts`.
pub open spec fn container_text(texts: Seq<Seq<char>>) -> Seq<char> {
    opening() + joined(texts) + closing()
}

/// What is appended for an element when `before` elements were already
/// written: the separator first, unless the element is the first one.
pub open spec fn element_chunk(before: nat, text: Seq<char>) -> Seq<char> {
    if before == 0 {
        text
    } else {
        separator() + text
    }
}

/// Appending an element's chunk to the joined elements gives the joined
/// elements of the longer sequence.
pub proof fn joined_push(texts: Seq<Seq<char>>, text: Seq<char>)
    ensures
        joined(texts.push(text)) == joined(texts) + element_chunk(texts.len(), text),
{
    let longer = texts.push(text);
    assert(longer.drop_last() =~= texts);
    assert(longer.last() == text);
    assert(joined(longer) =~= joined(texts) + element_chunk(texts.len(), text));
}

/// The empty container is the two markers; a container with elements ends
/// with its last element directly followed by the closing marker, so no
/// separator trails the last element.
pub proof fn container_has_no_trailing_separator(texts: Seq<Seq<char>>)
    ensures
        texts.len() == 0 ==> container_text(texts) == opening() + closing(),
        texts.len() == 1 ==> container_text(texts) == opening() + texts[0] + closing(),
        texts.len() > 1 ==> container_text(texts) == opening() + joined(texts.drop_last())
            + separator() + texts.last() + closing(),
{
    if texts.len() == 0 {
        assert(container_text(texts) =~= opening() + closing());
    } else if texts.len() == 1 {
    } else {
        assert(container_text(texts) =~= opening() + joined(texts.drop_last()) + separator()
            + texts.last() + closing());
    }
}

/// Builds the chunk for one element.
pub fn chunk_for(before: u64, text: String) -> (chunk: String)
    ensures
        chunk@ == element_chunk(before as nat, text@),
{
    if before == 0 {
        text
    } else {
        String::from_str(",\n").concat(text.as_str())
    }
}

} // verus!
