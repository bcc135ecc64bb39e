//! Laws of the decomposition engine and the modifier pipeline, proved once
//! and for all magnitudes of the band they speak of.

use vstd::prelude::*;

use crate::casing::{cased, lower_of, Case};
use crate::dispatch::{strategy_phrase, Strategy};
use crate::engine::en_cardinal;
use crate::words::{en_ten, en_unit};

verus! {

/// Below twenty the English cardinal phrase is exactly the unit table entry.
pub proof fn lemma_unit_band(n: nat)
    requires
        n < 20,
    ensures
        en_cardinal(n) == en_unit(n),
{
}

/// In the tens band a round multiple of ten is the bare tens word, which
/// holds no hyphen; any other value is the tens word, a hyphen, and the unit
/// phrase.
pub proof fn lemma_tens_band(n: nat)
    requires
        20 <= n <= 99,
    ensures
        n % 10 == 0 ==> en_cardinal(n) == en_ten(n / 10) && !en_cardinal(n).contains('-'),
        n % 10 != 0 ==> en_cardinal(n) == en_ten(n / 10) + "-"@ + en_cardinal(n % 10),
{
    if n % 10 == 0 {
        let t = n / 10;
        assert(2 <= t <= 9);
        reveal_strlit("Twenty");
        reveal_strlit("Thirty");
        reveal_strlit("Forty");
        reveal_strlit("Fifty");
        reveal_strlit("Sixty");
        reveal_strlit("Seventy");
        reveal_strlit("Eighty");
        reveal_strlit("Ninety");
        assert forall|i: int| 0 <= i < en_ten(t).len() implies en_ten(t)[i] != '-' by {
        }
    }
}

/// In the hundreds band an exact multiple of one hundred is the spelled
/// count followed by the scale word alone; any other value carries the
/// " and " suffix with the spelled remainder.
pub proof fn lemma_hundreds_band(n: nat)
    requires
        100 <= n <= 999,
    ensures
        n % 100 == 0 ==> en_cardinal(n) == en_cardinal(n / 100) + " "@ + "Hundred"@,
        n % 100 != 0 ==> en_cardinal(n) == en_cardinal(n / 100) + " "@ + "Hundred"@ + " and "@
            + en_cardinal(n % 100),
{
}

/// The lower-case spellout of a magnitude is the lowercase folding of its
/// title-case spellout, for every strategy and every magnitude.
pub proof fn lemma_lower_is_folded_title(strategy: Strategy, n: nat)
    ensures
        cased(Case::Lower, strategy_phrase(strategy, n)) == lower_of(
            cased(Case::Title, strategy_phrase(strategy, n)),
        ),
{
}

} // verus!
