//! What a batch moves, and what it costs.

use vstd::prelude::*;

use crate::sign_review::BatchEconomics;
use crate::sign_review::MoveDirection;
use crate::sign_review::MovedAmount;
use crate::text::chars_of;
use crate::text::dec;
use crate::text::dec_fixed;
use crate::text::decimal_fixed;
use crate::text::decimal_wide;
use crate::text::lemma_next;
use crate::text::model_of;
use crate::text::models;
use crate::text::none_of;
use crate::text::string_of;

verus! {

/// Wei in one ether.
pub const WEI_PER_ETHER: u128 = 1_000_000_000_000_000_000;

/// A text without the zeros at its end.
pub open spec fn without_zeros(s: Seq<char>) -> Seq<char>
    decreases s.len(),
{
    if s.len() > 0 && s.last() == '0' {
        without_zeros(s.drop_last())
    } else {
        s
    }
}

/// An amount of wei in ether, to the last digit.
pub open spec fn ether_text(wei: nat) -> Seq<char> {
    if wei % WEI_PER_ETHER as nat == 0 {
        dec(wei / WEI_PER_ETHER as nat)
    } else {
        dec(wei / WEI_PER_ETHER as nat) + "."@ + without_zeros(dec_fixed(wei, 18))
    }
}

impl MoveDirection {
    /// The sign in front of an amount.
    pub open spec fn sign(self) -> Seq<char> {
        match self {
            MoveDirection::Out => "−"@,
            MoveDirection::In => "+"@,
        }
    }

    /// The sign in front of an amount.
    pub fn prefix(self) -> (r: &'static str)
        ensures
            r@ == self.sign(),
    {
        match self {
            MoveDirection::Out => "−",
            MoveDirection::In => "+",
        }
    }
}

/// A text without the zeros at its end.
fn drop_zeros(s: &str) -> (r: String)
    ensures
        r@ == without_zeros(s@),
{
    let v: Vec<char> = chars_of(s);
    let mut n: usize = v.len();
    proof {
        assert(v@.take(n as int) =~= v@);
    }
    while n > 0 && v[n - 1] == '0'
        invariant
            n <= v@.len(),
            without_zeros(v@) == without_zeros(v@.take(n as int)),
        decreases n,
    {
        proof {
            assert(v@.take(n as int).drop_last() =~= v@.take(n - 1));
        }
        n = n - 1;
    }
    proof {
        assert(v@.subrange(0, n as int) =~= v@.take(n as int));
    }
    string_of(&v, 0, n)
}

/// The last digits of a number are those of its remainder.
proof fn lemma_low_digits(a: nat, b: nat, width: nat, m: nat)
    requires
        m == pow10(width),
        a % m == b,
    ensures
        dec_fixed(a, width) == dec_fixed(b, width),
    decreases width,
{
    if width > 0 {
        let k = pow10((width - 1) as nat);
        assert(m == 10 * k);
        assert(k > 0) by {
            lemma_pow10_positive((width - 1) as nat);
        }
        assert(a == m * (a / m) + b) by (nonlinear_arith)
            requires
                a % m == b,
                m > 0,
        ;
        assert(m * (a / m) == 10 * (k * (a / m))) by (nonlinear_arith)
            requires
                m == 10 * k,
        ;
        assert(a % 10 == b % 10);
        assert(a / 10 == k * (a / m) + b / 10);
        assert(b / 10 < k);
        assert(k * (a / m) == (a / m) * k) by (nonlinear_arith);
        vstd::arithmetic::div_mod::lemma_fundamental_div_mod_converse(
            (a / 10) as int,
            k as int,
            (a / m) as int,
            (b / 10) as int,
        );
        lemma_low_digits(a / 10, b / 10, (width - 1) as nat, k);
    }
}

/// Ten to the power of `n`.
spec fn pow10(n: nat) -> nat
    decreases n,
{
    if n == 0 {
        1
    } else {
        10 * pow10((n - 1) as nat)
    }
}

proof fn lemma_pow10_positive(n: nat)
    ensures
        pow10(n) > 0,
    decreases n,
{
    if n > 0 {
        lemma_pow10_positive((n - 1) as nat);
    }
}

/// An amount of wei in ether.
fn format_ether(wei: u128) -> (r: String)
    ensures
        r@ == ether_text(wei as nat),
{
    let mut s: String = decimal_wide(wei / WEI_PER_ETHER);
    let rest: u64 = (wei % WEI_PER_ETHER) as u64;
    if rest != 0 {
        proof {
            reveal_with_fuel(pow10, 19);
            lemma_low_digits(wei as nat, rest as nat, 18, WEI_PER_ETHER as nat);
        }
        s.append(".");
        s.append(drop_zeros(decimal_fixed(rest, 18).as_str()).as_str());
    }
    s
}

impl BatchEconomics {
    /// The fee in ether, unless the gas or the base fee is not known.
    pub open spec fn fee(self) -> Option<Seq<char>> {
        if self.gas_used == 0 || self.base_fee_per_gas == 0 {
            None
        } else {
            Some(ether_text(self.gas_used as nat * self.base_fee_per_gas as nat))
        }
    }

    /// The estimated fee in ether: the gas times the base fee. Nothing when
    /// either is not known, rather than a free transaction. Writing it out to
    /// the last digit is this library's own choice.
    pub fn fee_eth(&self) -> (r: Option<String>)
        ensures
            model_of(r) == self.fee(),
    {
        if self.gas_used == 0 || self.base_fee_per_gas == 0 {
            return None;
        }
        let gas: u128 = self.gas_used as u128;
        let price: u128 = self.base_fee_per_gas as u128;
        proof {
            assert(gas * price <= 0xffff_ffff_ffff_ffff * 0xffff_ffff_ffff_ffff) by (
                nonlinear_arith)
                requires
                    gas <= 0xffff_ffff_ffff_ffff,
                    price <= 0xffff_ffff_ffff_ffff,
            ;
        }
        Some(format_ether(gas * price))
    }

    /// Whether there is nothing to say: no movement and no fee.
    pub open spec fn empty(self) -> bool {
        self.moves@.len() == 0 && self.fee() is None
    }

    /// Whether there is nothing to say: no movement and no fee.
    pub fn is_empty(&self) -> (r: bool)
        ensures
            r == self.empty(),
    {
        self.moves.len() == 0 && self.fee_eth().is_none()
    }
}

/// A movement, ready to show.
#[derive(Debug, Clone, PartialEq, Eq)]
pub struct MoveLine {
    pub line: String,
    pub direction: MoveDirection,
}

#[verifier::ext_equal]
pub struct MoveModel {
    pub line: Seq<char>,
    pub direction: MoveDirection,
}

impl View for MoveLine {
    type V = MoveModel;

    open spec fn view(&self) -> MoveModel {
        MoveModel { line: self.line@, direction: self.direction }
    }
}

/// The fee, what it is made of, and how it may be wrong.
#[derive(Debug, Clone, PartialEq, Eq)]
pub struct FeeLine {
    pub line: String,
    pub basis: String,
    pub caveats: Vec<String>,
}

#[verifier::ext_equal]
pub struct FeeModel {
    pub line: Seq<char>,
    pub basis: Seq<char>,
    pub caveats: Seq<Seq<char>>,
}

impl View for FeeLine {
    type V = FeeModel;

    open spec fn view(&self) -> FeeModel {
        FeeModel { line: self.line@, basis: self.basis@, caveats: models(self.caveats@) }
    }
}

/// The card of a batch's economics.
#[derive(Debug, Clone, PartialEq, Eq)]
pub struct EconomicsCard {
    pub header: &'static str,
    /// What stands behind the figures.
    pub badge: &'static str,
    /// The badge is a good one.
    pub vouched: bool,
    pub moves: Vec<MoveLine>,
    /// What the list of movements does not cover.
    pub gap: &'static str,
    pub fee: Option<FeeLine>,
}

#[verifier::ext_equal]
pub struct EconomicsModel {
    pub header: Seq<char>,
    pub badge: Seq<char>,
    pub vouched: bool,
    pub moves: Seq<MoveModel>,
    pub gap: Seq<char>,
    pub fee: Option<FeeModel>,
}

impl View for EconomicsCard {
    type V = EconomicsModel;

    open spec fn view(&self) -> EconomicsModel {
        EconomicsModel {
            header: self.header@,
            badge: self.badge@,
            vouched: self.vouched,
            moves: models(self.moves@),
            gap: self.gap@,
            fee: model_of(self.fee),
        }
    }
}

/// What stands behind the figures. Freshness comes before verification: a
/// verified read of a balance that has since moved is no longer true.
pub open spec fn badge_text(e: BatchEconomics) -> Seq<char> {
    if !e.simulated {
        "not simulated"@
    } else if e.stale {
        "⚠ Simulated a while ago"@
    } else if e.verified {
        "✓ Verified by Helios"@
    } else {
        "⚠ Unverified simulation"@
    }
}

/// What the list of movements does not cover.
pub open spec fn gap_text(simulated: bool) -> Seq<char> {
    if simulated {
        "ETH arriving back in the account isn't tracked here — native transfers emit no event. The ETH these calls send is exact."@
    } else {
        "Token movement wasn't simulated for this batch, so this list covers only the native value the calls carry — run the preflight to see ERC-20 and NFT movement."@
    }
}

/// A movement, ready to show.
pub open spec fn move_model(m: MovedAmount) -> MoveModel {
    MoveModel { line: m.direction.sign() + " "@ + m.amount@, direction: m.direction }
}

/// What a fee is made of, from the texts for the gas and for the base fee.
pub open spec fn basis_text(gas: Seq<char>, gwei: Option<Seq<char>>) -> Seq<char> {
    match gwei {
        Some(g) => gas + " gas at "@ + g + " gwei base fee"@,
        None => gas + " gas"@,
    }
}

/// A caveat behind its dot.
pub open spec fn caveat_text(c: Seq<char>) -> Seq<char> {
    "· "@ + c
}

/// The caveats, each behind its dot.
pub open spec fn caveat_texts(s: Seq<String>) -> Seq<Seq<char>> {
    s.map_values(|c: String| caveat_text(c@))
}

/// The card of a batch's economics.
pub open spec fn economics_model(
    e: BatchEconomics,
    gas: Seq<char>,
    gwei: Option<Seq<char>>,
) -> EconomicsModel {
    EconomicsModel {
        header: if e.moves@.len() == 0 {
            "Cost"@
        } else {
            "This transaction moves"@
        },
        badge: badge_text(e),
        vouched: e.simulated && e.verified && !e.stale,
        moves: e.moves@.map_values(|m: MovedAmount| move_model(m)),
        gap: gap_text(e.simulated),
        fee: match e.fee() {
            Some(fee) => Some(
                FeeModel {
                    line: "≈ "@ + fee + " ETH fee"@,
                    basis: basis_text(gas, gwei),
                    caveats: caveat_texts(e.fee_caveats@),
                },
            ),
            None => None,
        },
    }
}

/// The movements, ready to show.
fn move_lines(moves: &Vec<MovedAmount>) -> (r: Vec<MoveLine>)
    ensures
        models(r@) == moves@.map_values(|m: MovedAmount| move_model(m)),
{
    let ghost want = moves@.map_values(|m: MovedAmount| move_model(m));
    let mut out: Vec<MoveLine> = none_of();
    let mut i: usize = 0;
    while i < moves.len()
        invariant
            i <= moves@.len(),
            want == moves@.map_values(|m: MovedAmount| move_model(m)),
            models(out@) =~= want.take(i as int),
        decreases moves@.len() - i,
    {
        let mut line: String = moves[i].direction.prefix().to_owned();
        line.append(" ");
        line.append(moves[i].amount.as_str());
        let ghost before = out@;
        let item: MoveLine = MoveLine { line, direction: moves[i].direction };
        out.push(item);
        proof {
            assert(models(out@) =~= models(before).push(item@));
            lemma_next(want, i as int);
        }
        i = i + 1;
    }
    proof {
        assert(want.take(i as int) =~= want);
    }
    out
}

/// The caveats, each behind its dot.
fn caveat_lines(caveats: &Vec<String>) -> (r: Vec<String>)
    ensures
        models(r@) == caveat_texts(caveats@),
{
    let ghost want = caveat_texts(caveats@);
    let mut out: Vec<String> = none_of();
    let mut i: usize = 0;
    while i < caveats.len()
        invariant
            i <= caveats@.len(),
            want == caveat_texts(caveats@),
            models(out@) =~= want.take(i as int),
        decreases caveats@.len() - i,
    {
        let mut line: String = "· ".to_owned();
        line.append(caveats[i].as_str());
        let ghost before = out@;
        out.push(line);
        proof {
            assert(models(out@) =~= models(before).push(line@));
            lemma_next(want, i as int);
        }
        i = i + 1;
    }
    proof {
        assert(want.take(i as int) =~= want);
    }
    out
}

/// The fee line.
fn fee_line(e: &BatchEconomics, gas: &str, gwei: Option<&str>) -> (r: Option<FeeLine>)
    ensures
        model_of(r) == economics_model(*e, gas@, model_of(gwei)).fee,
{
    match e.fee_eth() {
        Some(fee) => {
            let mut line: String = "≈ ".to_owned();
            line.append(fee.as_str());
            line.append(" ETH fee");
            let mut basis: String = gas.to_owned();
            match gwei {
                Some(g) => {
                    basis.append(" gas at ");
                    basis.append(g);
                    basis.append(" gwei base fee");
                },
                None => basis.append(" gas"),
            }
            Some(FeeLine { line, basis, caveats: caveat_lines(&e.fee_caveats) })
        },
        None => None,
    }
}

/// The card of a batch's economics. `gas` and `gwei` are the gas and the base
/// fee as texts.
pub fn economics_card(e: &BatchEconomics, gas: &str, gwei: Option<&str>) -> (r: EconomicsCard)
    ensures
        r@ == economics_model(*e, gas@, model_of(gwei)),
{
    EconomicsCard {
        header: if e.moves.len() == 0 {
            "Cost"
        } else {
            "This transaction moves"
        },
        badge: if !e.simulated {
            "not simulated"
        } else if e.stale {
            "⚠ Simulated a while ago"
        } else if e.verified {
            "✓ Verified by Helios"
        } else {
            "⚠ Unverified simulation"
        },
        vouched: e.simulated && e.verified && !e.stale,
        moves: move_lines(&e.moves),
        gap: if e.simulated {
            "ETH arriving back in the account isn't tracked here — native transfers emit no event. The ETH these calls send is exact."
        } else {
            "Token movement wasn't simulated for this batch, so this list covers only the native value the calls carry — run the preflight to see ERC-20 and NFT movement."
        },
        fee: fee_line(e, gas, gwei),
    }
}

} // verus!
