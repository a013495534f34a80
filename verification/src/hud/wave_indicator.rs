//! The wave counter: "Wave N/M", or word that every wave is cleared.
use vstd::prelude::*;
use vstd::string::StringExecFns;
use crate::game::waves::WaveManager;

verus! {

/// The decimal digit of `d` (below ten).
pub open spec fn digit(d: nat) -> char {
    ((48 + d) as u32) as char
}

/// The decimal numeral of `n`, without leading zeros.
pub open spec fn decimal(n: nat) -> Seq<char>
    decreases n,
{
    if n < 10 {
        seq![digit(n)]
    } else {
        decimal(n / 10).push(digit(n % 10))
    }
}

/// `usize::to_string`: the number in decimal, as `Display` writes a `usize`.
#[verifier::external_body]
fn usize_decimal(n: usize) -> (s: String)
    ensures
        s@ == decimal(n as nat),
{
    n.to_string()
}

/// What the wave counter reads: that every wave is cleared once they all are,
/// and otherwise "Wave N/M" with the wave being fought (counted from one) and
/// how many there are.
pub fn update_wave_indicator(manager: &WaveManager) -> (s: String)
    ensures
        manager.progress().complete() ==> s@ == "All waves cleared!"@,
        !manager.progress().complete() ==> s@ == "Wave "@ + decimal((manager.current + 1) as nat) + "/"@
            + decimal(manager.waves@.len()),
{
    let total = manager.total();
    if manager.all_complete() {
        "All waves cleared!".to_owned()
    } else {
        let shown = usize_decimal(manager.display_current());
        let count = usize_decimal(total);
        let mut text = "Wave ".to_owned();
        text.append(shown.as_str());
        text.append("/");
        text.append(count.as_str());
        text
    }
}

} // verus!
