//! Locale-name normalization: the platform hands back a POSIX locale
//! such as `en_US.UTF-8` or `sr_RS@latin`, but callers expect the bare
//! language tag, so everything from the first dot or at-sign on is cut.

use vstd::prelude::*;

verus! {

/// Byte value of the dot.
pub const LOCALE_DOT: u8 = 46;

/// Byte value of the at-sign.
pub const LOCALE_AT: u8 = 64;

/// Where a locale name's tag ends: at the first dot or at-sign, or at
/// the end when neither occurs.
pub open spec fn spec_locale_tag_end(locale: Seq<u8>) -> int
    decreases locale.len(),
{
    if locale.len() == 0 {
        0
    } else if locale[0] == LOCALE_DOT || locale[0] == LOCALE_AT {
        0
    } else {
        1 + spec_locale_tag_end(locale.drop_first())
    }
}

proof fn lemma_locale_tag_end(locale: Seq<u8>)
    ensures
        0 <= spec_locale_tag_end(locale) <= locale.len(),
        forall|i: int|
            0 <= i < spec_locale_tag_end(locale) ==> #[trigger] locale[i] != LOCALE_DOT
                && locale[i] != LOCALE_AT,
        spec_locale_tag_end(locale) < locale.len() ==> locale[spec_locale_tag_end(locale)]
            == LOCALE_DOT || locale[spec_locale_tag_end(locale)] == LOCALE_AT,
    decreases locale.len(),
{
    if locale.len() != 0 && locale[0] != LOCALE_DOT && locale[0] != LOCALE_AT {
        lemma_locale_tag_end(locale.drop_first());
        assert forall|i: int|
            0 <= i < spec_locale_tag_end(locale) implies #[trigger] locale[i] != LOCALE_DOT
            && locale[i] != LOCALE_AT by {
            if i > 0 {
                assert(locale.drop_first()[i - 1] == locale[i]);
            }
        }
        if spec_locale_tag_end(locale) < locale.len() {
            assert(locale.drop_first()[spec_locale_tag_end(locale) - 1] == locale[
                spec_locale_tag_end(locale)
            ]);
        }
    }
}

/// Truncate a locale name, as bytes, to its language tag: everything
/// before the first dot or at-sign.
pub fn normalize_locale(locale: &Vec<u8>) -> (tag: Vec<u8>)
    ensures
        tag@ == locale@.subrange(0, spec_locale_tag_end(locale@)),
{
    proof {
        lemma_locale_tag_end(locale@);
    }
    let ghost tag_end = spec_locale_tag_end(locale@);
    let mut tag: Vec<u8> = Vec::new();
    let mut i: usize = 0;
    while i < locale.len()
        invariant
            0 <= i <= tag_end <= locale@.len(),
            tag_end == spec_locale_tag_end(locale@),
            tag@.len() == i,
            tag@ == locale@.subrange(0, i as int),
            forall|j: int|
                0 <= j < tag_end ==> #[trigger] locale@[j] != LOCALE_DOT && locale@[j] != LOCALE_AT,
            tag_end < locale@.len() ==> locale@[tag_end] == LOCALE_DOT || locale@[tag_end]
                == LOCALE_AT,
        decreases locale@.len() - i,
    {
        let b = locale[i];
        if b == LOCALE_DOT || b == LOCALE_AT {
            proof {
                assert(i == tag_end);
                assert(tag@ =~= locale@.subrange(0, tag_end));
            }
            return tag;
        }
        tag.push(b);
        proof {
            assert(tag@ =~= locale@.subrange(0, i + 1));
            assert(i < tag_end) by {
                if i == tag_end {
                    assert(locale@[tag_end] == LOCALE_DOT || locale@[tag_end] == LOCALE_AT);
                }
            }
        }
        i = i + 1;
    }
    proof {
        assert(tag@ =~= locale@.subrange(0, tag_end));
    }
    tag
}

} // verus!
