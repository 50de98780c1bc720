//! The text that context-aware scoring classifies for a detected gap, and the key under
//! which a classification is cached.

use vstd::prelude::*;
use crate::gap_analyzer::{metadata_get, DetectedGap, GapRecord};
use crate::text::{append_decimal, chars_of, contains_seq, decimal, str_contains, trim, trimmed};

verus! {

/// Parts joined by single spaces.
pub open spec fn joined_by_spaces(parts: Seq<Seq<char>>) -> Seq<char>
    decreases parts.len(),
{
    if parts.len() == 0 {
        Seq::empty()
    } else if parts.len() == 1 {
        parts[0]
    } else {
        joined_by_spaces(parts.drop_last()) + " "@ + parts.last()
    }
}

/// What the file path says of the file: source code under `src/`, else a test file,
/// else documentation, else nothing.
pub open spec fn file_kind_part(path: Seq<char>) -> Seq<Seq<char>> {
    if contains_seq(path, "src/"@) {
        seq!["source code file"@]
    } else if contains_seq(path, "test"@) {
        seq!["test file"@]
    } else if contains_seq(path, "doc"@) {
        seq!["documentation file"@]
    } else {
        Seq::empty()
    }
}

/// The parts of a gap's classification query: its description, its context unless
/// blank, its item type when the metadata names one, and the kind of file.
pub open spec fn classification_parts(g: GapRecord) -> Seq<Seq<char>> {
    seq![g.description]
        + (if trimmed(g.context).len() > 0 { seq![g.context] } else { Seq::empty() })
        + (match metadata_get(g.metadata, "item_type"@) {
            Some(t) => seq!["item type: "@ + t],
            None => Seq::empty(),
        })
        + file_kind_part(g.file_path)
}

/// Append `part` to `parts`.
fn push_part(parts: &mut Vec<String>, part: String)
    ensures
        final(parts)@.map_values(|p: String| p@) == old(parts)@.map_values(|p: String| p@).push(part@),
{
    let ghost before = parts@;
    parts.push(part);
    assert(parts@.map_values(|p: String| p@) =~= before.map_values(|p: String| p@).push(part@));
}

/// Join text parts with single spaces.
fn join_with_spaces(parts: &Vec<String>) -> (s: String)
    ensures
        s@ == joined_by_spaces(parts@.map_values(|p: String| p@)),
{
    let ghost views = parts@.map_values(|p: String| p@);
    let mut s = String::new();
    let mut i: usize = 0;
    while i < parts.len()
        invariant
            i <= parts@.len(),
            views == parts@.map_values(|p: String| p@),
            s@ == joined_by_spaces(views.take(i as int)),
        decreases parts.len() - i,
    {
        proof {
            assert(views.take(i + 1).drop_last() =~= views.take(i as int));
            assert(views.take(i + 1).last() == parts@[i as int]@);
        }
        if i > 0 {
            s.append(" ");
        } else {
            assert(views.take(0) =~= Seq::<Seq<char>>::empty());
        }
        s.append(parts[i].as_str());
        i = i + 1;
    }
    assert(views.take(parts@.len() as int) =~= views);
    s
}

/// Build the classification query of a gap: its parts joined by spaces.
pub fn build_classification_query(gap: &DetectedGap) -> (q: String)
    ensures
        q@ == joined_by_spaces(classification_parts(gap@)),
{
    let mut parts: Vec<String> = Vec::new();
    push_part(&mut parts, gap.description.clone());
    if !trim(gap.context.as_str()).as_str().is_empty() {
        push_part(&mut parts, gap.context.clone());
    }
    match gap.get_metadata("item_type") {
        Some(t) => {
            let mut part = String::new();
            part.append("item type: ");
            part.append(t.as_str());
            push_part(&mut parts, part);
        },
        None => {},
    }
    let path = gap.file_path.as_str();
    if str_contains(path, "src/") {
        push_part(&mut parts, "source code file".to_owned());
    } else if str_contains(path, "test") {
        push_part(&mut parts, "test file".to_owned());
    } else if str_contains(path, "doc") {
        push_part(&mut parts, "documentation file".to_owned());
    }
    proof {
        assert(parts@.map_values(|p: String| p@) =~= classification_parts(gap@));
    }
    join_with_spaces(&parts)
}

/// The hash of a query under which its classification is cached: over the characters
/// in order, the running value is multiplied by 31 and the character's code point
/// added, both modulo 2^64, starting from zero.
pub open spec fn classification_hash(s: Seq<char>) -> u64
    decreases s.len(),
{
    if s.len() == 0 {
        0
    } else {
        vstd::wrapping::u64_specs::wrapping_add(
            vstd::wrapping::u64_specs::wrapping_mul(classification_hash(s.drop_last()), 31),
            s.last() as u64,
        )
    }
}

/// The cache key of a classification query.
pub fn generate_classification_cache_key(query: &str) -> (k: String)
    ensures
        k@ == "classification_"@ + decimal(classification_hash(query@) as nat),
{
    let cs = chars_of(query);
    let mut h: u64 = 0;
    let mut i: usize = 0;
    while i < cs.len()
        invariant
            i <= cs@.len(),
            cs@ == query@,
            h == classification_hash(cs@.take(i as int)),
        decreases cs.len() - i,
    {
        assert(cs@.take(i + 1).drop_last() =~= cs@.take(i as int));
        assert(cs@.take(i + 1).last() == cs@[i as int]);
        h = h.wrapping_mul(31).wrapping_add(cs[i] as u64);
        i = i + 1;
    }
    assert(cs@.take(cs@.len() as int) =~= cs@);
    let mut k = String::new();
    k.append("classification_");
    append_decimal(&mut k, h);
    k
}

} // verus!
