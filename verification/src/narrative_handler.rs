//! Narrative free-text handling: collecting the optional narrative fields
//! under their logical keys, and truncating long text to fit fixed-size
//! target fields.

use vstd::prelude::*;
use crate::character_model::CharacterNarrative;
use crate::text::pairs_view;

verus! {

/// One optional narrative field's contribution: its logical key and text,
/// present only when the field is.
pub open spec fn narrative_entry(key: Seq<char>, v: Option<String>) -> Seq<
    (Seq<char>, Seq<char>),
> {
    match v {
        Option::Some(s) => seq![(key, s@)],
        Option::None => Seq::empty(),
    }
}

/// The present narrative fields, in fixed order, under their logical keys.
pub open spec fn narrative_fields_model(n: CharacterNarrative) -> Seq<(Seq<char>, Seq<char>)> {
    narrative_entry("personality_traits"@, n.personality_traits) + narrative_entry(
        "ideals"@,
        n.ideals,
    ) + narrative_entry("bonds"@, n.bonds) + narrative_entry("flaws"@, n.flaws)
}

/// Text cut to at most `max` characters: unchanged when it fits, else the
/// first `max - 3` characters with a three-dot marker appended (`max`
/// under 3 keeps only the marker).
pub open spec fn truncated(text: Seq<char>, max: int) -> Seq<char> {
    if text.len() <= max {
        text
    } else if max >= 3 {
        text.subrange(0, max - 3) + "..."@
    } else {
        text.subrange(0, 0) + "..."@
    }
}

/// Collects and truncates narrative text.
#[derive(Debug, Clone, Copy)]
pub struct NarrativeHandler;

/// Appends one optional narrative field under its logical key.
fn push_narrative_field(
    out: &mut Vec<(String, String)>,
    key: &'static str,
    value: &Option<String>,
)
    ensures
        pairs_view(final(out)@) == pairs_view(old(out)@) + narrative_entry(key@, *value),
{
    if let Option::Some(text) = value {
        out.push((String::from_str(key), text.clone()));
    }
    proof {
        assert(pairs_view(out@) =~= pairs_view(old(out)@) + narrative_entry(key@, *value));
    }
}

impl NarrativeHandler {
    /// The present narrative fields, in fixed order, as (logical key,
    /// text) pairs.
    pub fn format_narrative_fields(narrative: &CharacterNarrative) -> (r: Vec<(String, String)>)
        ensures
            pairs_view(r@) == narrative_fields_model(*narrative),
    {
        let mut fields: Vec<(String, String)> = Vec::new();
        push_narrative_field(&mut fields, "personality_traits", &narrative.personality_traits);
        push_narrative_field(&mut fields, "ideals", &narrative.ideals);
        push_narrative_field(&mut fields, "bonds", &narrative.bonds);
        push_narrative_field(&mut fields, "flaws", &narrative.flaws);
        proof {
            assert(pairs_view(Seq::<(String, String)>::empty()) =~= Seq::<
                (Seq<char>, Seq<char>),
            >::empty());
            assert(Seq::<(Seq<char>, Seq<char>)>::empty() + narrative_entry(
                "personality_traits"@,
                narrative.personality_traits,
            ) =~= narrative_entry("personality_traits"@, narrative.personality_traits));
            assert(pairs_view(fields@) == narrative_fields_model(*narrative));
        }
        fields
    }

    /// Cuts text to at most `max_length` characters, marking the cut with
    /// three dots.
    pub fn truncate_if_needed(text: &str, max_length: usize) -> (r: String)
        ensures
            r@ == truncated(text@, max_length as int),
    {
        let len = text.unicode_len();
        if len <= max_length {
            String::from_str(text)
        } else {
            proof {
                reveal_strlit("...");
            }
            let cut: usize = if max_length >= 3 {
                max_length - 3
            } else {
                0
            };
            let head = text.substring_char(0, cut);
            let mut s = String::from_str(head);
            s.append("...");
            proof {
                assert(s@ =~= truncated(text@, max_length as int));
            }
            s
        }
    }
}

} // verus!
