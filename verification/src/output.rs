//! The name of the file that a run writes.

use vstd::prelude::*;
use vstd::string::{StrSliceExecFns, StringExecFns};

verus! {

/// Whether a character of a drizzle scale's label goes into a file name:
/// blanks and dots do not.
pub open spec fn kept_in_name(c: char) -> bool {
    c != ' ' && c != '.'
}

/// A drizzle scale's label without its blanks and dots.
pub open spec fn stripped(label: Seq<char>) -> Seq<char> {
    label.filter(|c: char| kept_in_name(c))
}

/// The part of the name that tells the drizzle scale: nothing for `None`,
/// which stands for the scale of one.
pub open spec fn drizzle_part(drizzle_scale: Option<Seq<char>>) -> Seq<char> {
    match drizzle_scale {
        Some(label) => "_"@ + stripped(label),
        None => Seq::empty(),
    }
}

/// The part of the name that holds the user's free text, if there is any.
pub open spec fn freetext_part(freetext: Seq<char>) -> Seq<char> {
    if freetext.len() == 0 {
        Seq::empty()
    } else {
        "_"@ + freetext
    }
}

/// The stem of the output name: that of the primary input, or "Unknown".
pub open spec fn base_part(light_stem: Option<Seq<char>>) -> Seq<char> {
    match light_stem {
        Some(stem) => stem,
        None => "Unknown"@,
    }
}

/// The name of the output file: the stem, the target, the drizzle scale
/// unless it is one, the free text unless it is empty, and the extension.
pub open spec fn output_filename(
    light_stem: Option<Seq<char>>,
    target: Seq<char>,
    drizzle_scale: Option<Seq<char>>,
    freetext: Seq<char>,
) -> Seq<char> {
    base_part(light_stem) + "_"@ + target + drizzle_part(drizzle_scale) + freetext_part(freetext)
        + ".tif"@
}

/// Appends to `name` the characters of `label` that go into a file name.
fn append_stripped(name: &mut String, label: &str)
    ensures
        final(name)@ == old(name)@ + stripped(label@),
{
    let ghost kept = |c: char| kept_in_name(c);
    let ghost start = name@;
    let len = label.unicode_len();
    let mut i: usize = 0;
    proof {
        assert(label@.take(0) =~= Seq::<char>::empty());
        assert(Seq::<char>::empty().filter(kept) =~= Seq::<char>::empty()) by {
            reveal(Seq::filter);
        }
        assert(name@ =~= start + label@.take(0).filter(kept));
    }
    while i < len
        invariant
            i <= len,
            len == label@.len(),
            kept == (|c: char| kept_in_name(c)),
            name@ == start + label@.take(i as int).filter(kept),
        decreases len - i,
    {
        let c = label.get_char(i);
        proof {
            label@.take(i as int).lemma_filter_push(c, kept);
            assert(label@.take(i + 1) =~= label@.take(i as int).push(c));
            assert(kept(c) == kept_in_name(c));
        }
        if c != ' ' && c != '.' {
            let one = label.substring_char(i, i + 1);
            let ghost before = name@;
            name.append(one);
            proof {
                assert(one@ =~= seq![c]);
                assert(name@ =~= start + label@.take(i as int).filter(kept).push(c));
            }
        }
        i = i + 1;
    }
    proof {
        assert(label@.take(i as int) =~= label@);
    }
}

/// Puts the name of the output file together.
///
/// `light_stem` is the file stem of the primary input, `target` the name of
/// the observed body, `drizzle_scale` the label of the drizzle scale where it
/// is not one, and `freetext` what the user added.
pub fn assemble_output_filename(
    light_stem: Option<&str>,
    target: &str,
    drizzle_scale: Option<&str>,
    freetext: &str,
) -> (name: String)
    ensures
        name@ == output_filename(
            match light_stem {
                Some(stem) => Some(stem@),
                None => None,
            },
            target@,
            match drizzle_scale {
                Some(label) => Some(label@),
                None => None,
            },
            freetext@,
        ),
{
    let mut name = String::new();
    match light_stem {
        Some(stem) => name.append(stem),
        None => name.append("Unknown"),
    }
    name.append("_");
    name.append(target);
    match drizzle_scale {
        Some(label) => {
            name.append("_");
            append_stripped(&mut name, label);
        },
        None => {},
    }
    if !freetext.is_empty() {
        name.append("_");
        name.append(freetext);
    }
    name.append(".tif");
    proof {
        let stem_view = match light_stem {
            Some(stem) => Some(stem@),
            None => None,
        };
        let label_view = match drizzle_scale {
            Some(label) => Some(label@),
            None => None,
        };
        assert(name@ =~= output_filename(stem_view, target@, label_view, freetext@));
    }
    name
}

} // verus!
