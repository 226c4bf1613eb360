//! Monetary amounts: signed decimals of up to 96 bits of mantissa and up
//! to 28 fractional digits, parsed, printed and compared by `rust_decimal`.

use crate::sorting::{composes, int_order, reverse};
use rust_decimal::Decimal;
use std::cmp::Ordering;
use vstd::arithmetic::power::{lemma_pow_positive, pow};
use vstd::prelude::*;
use vstd::std_specs::cmp::{PartialEqSpecImpl, PartialOrdSpecImpl};

verus! {

/// The largest magnitude of a mantissa: 2^96 - 1.
pub const MAX_MANTISSA: i128 = 79_228_162_514_264_337_593_543_950_335;

/// The largest number of fractional digits.
pub const MAX_SCALE: u32 = 28;

/// What an amount is: the number `mantissa / 10^scale`, together with the
/// number of fractional digits it is written with.
pub struct AmountView {
    pub mantissa: int,
    pub scale: nat,
}

/// Whether a mantissa and a scale, as the machine holds them, are within
/// the range of an amount.
pub open spec fn valid_parts(mantissa: i128, scale: u32) -> bool {
    &&& -MAX_MANTISSA <= mantissa <= MAX_MANTISSA
    &&& scale <= MAX_SCALE
}

/// The amount that a mantissa and a scale stand for.
pub open spec fn parts_view(mantissa: i128, scale: u32) -> AmountView {
    AmountView { mantissa: mantissa as int, scale: scale as nat }
}

/// The order of two amounts as numbers, whatever their scales:
/// `1.0` and `1.00` are equal, and `0.5` comes before `1`.
pub open spec fn amount_order(a: AmountView, b: AmountView) -> Ordering {
    int_order(a.mantissa * pow(10, b.scale), b.mantissa * pow(10, a.scale))
}

/// The order of two optional amounts: an absent one comes before every
/// present one, and two absent ones are equal.
pub open spec fn optional_amount_order(a: Option<AmountView>, b: Option<AmountView>) -> Ordering {
    match (a, b) {
        (None, None) => Ordering::Equal,
        (None, Some(_)) => Ordering::Less,
        (Some(_), None) => Ordering::Greater,
        (Some(x), Some(y)) => amount_order(x, y),
    }
}

/// With positive denominators `pa`, `pb`, `pc`: the sign of
/// `ma/pa - mc/pc` follows from those of `ma/pa - mb/pb` and
/// `mb/pb - mc/pc`.
proof fn lemma_cross_products(ma: int, pa: int, mb: int, pb: int, mc: int, pc: int)
    requires
        pa > 0,
        pb > 0,
        pc > 0,
    ensures
        ma * pb == mb * pa ==> (ma * pc < mc * pa <==> mb * pc < mc * pb),
        ma * pb == mb * pa ==> (ma * pc > mc * pa <==> mb * pc > mc * pb),
        mb * pc == mc * pb ==> (ma * pc < mc * pa <==> ma * pb < mb * pa),
        mb * pc == mc * pb ==> (ma * pc > mc * pa <==> ma * pb > mb * pa),
        ma * pb < mb * pa && mb * pc < mc * pb ==> ma * pc < mc * pa,
        ma * pb > mb * pa && mb * pc > mc * pb ==> ma * pc > mc * pa,
{
    let x = ma * pb - mb * pa;
    let y = mb * pc - mc * pb;
    let z = ma * pc - mc * pa;
    assert(z * pb == x * pc + y * pa) by (nonlinear_arith)
        requires
            x == ma * pb - mb * pa,
            y == mb * pc - mc * pb,
            z == ma * pc - mc * pa,
    ;
    assert((x > 0 <==> x * pc > 0) && (x < 0 <==> x * pc < 0)) by (nonlinear_arith)
        requires
            pc > 0,
    ;
    assert((y > 0 <==> y * pa > 0) && (y < 0 <==> y * pa < 0)) by (nonlinear_arith)
        requires
            pa > 0,
    ;
    assert((z > 0 <==> z * pb > 0) && (z < 0 <==> z * pb < 0)) by (nonlinear_arith)
        requires
            pb > 0,
    ;
}

/// The order of amounts is transitive.
pub proof fn lemma_amount_order_composes(a: AmountView, b: AmountView, c: AmountView)
    ensures
        composes(amount_order(a, b), amount_order(b, c), amount_order(a, c)),
{
    lemma_pow_positive(10, a.scale);
    lemma_pow_positive(10, b.scale);
    lemma_pow_positive(10, c.scale);
    lemma_cross_products(
        a.mantissa,
        pow(10, a.scale),
        b.mantissa,
        pow(10, b.scale),
        c.mantissa,
        pow(10, c.scale),
    );
}

/// Exchanging the sides of a comparison of optional amounts reverses its
/// result.
pub proof fn lemma_optional_amount_order_reverse(a: Option<AmountView>, b: Option<AmountView>)
    ensures
        optional_amount_order(b, a) == reverse(optional_amount_order(a, b)),
{
}

/// The order of optional amounts is transitive.
pub proof fn lemma_optional_amount_order_composes(
    a: Option<AmountView>,
    b: Option<AmountView>,
    c: Option<AmountView>,
)
    ensures
        composes(
            optional_amount_order(a, b),
            optional_amount_order(b, c),
            optional_amount_order(a, c),
        ),
{
    if a is Some && b is Some && c is Some {
        lemma_amount_order_composes(a->0, b->0, c->0);
    }
}

/// The amount that `rust_decimal` reads from a text without rounding, or
/// `None` where it reads none.
pub uninterp spec fn parsed_decimal(text: Seq<char>) -> Option<AmountView>;

/// The text that `rust_decimal` prints for the amount `mantissa / 10^scale`.
pub uninterp spec fn decimal_text(mantissa: int, scale: nat) -> Seq<char>;

/// `Decimal::cmp` on two decimals, each built from its mantissa and scale
/// by `Decimal::from_i128_with_scale`. The constructor panics outside the
/// representable range, which `requires` leaves out. The comparison is by
/// numeric value: signs first, then the magnitudes brought to one scale.
#[verifier::external_body]
fn decimal_order(a_mantissa: i128, a_scale: u32, b_mantissa: i128, b_scale: u32) -> (r: Ordering)
    requires
        valid_parts(a_mantissa, a_scale),
        valid_parts(b_mantissa, b_scale),
    ensures
        r == amount_order(parts_view(a_mantissa, a_scale), parts_view(b_mantissa, b_scale)),
{
    let a = Decimal::from_i128_with_scale(a_mantissa, a_scale);
    let b = Decimal::from_i128_with_scale(b_mantissa, b_scale);
    a.cmp(&b)
}

/// `Decimal::from_str_exact`, which reads a base-10 number and fails
/// rather than round; the result is handed back as the decimal's mantissa
/// and scale. What it reads is named, not restated; a `Decimal` always has
/// a mantissa below 2^96 in magnitude and a scale of at most 28.
#[verifier::external_body]
fn decimal_from_text(text: &str) -> (r: Option<(i128, u32)>)
    ensures
        match r {
            Some((mantissa, scale)) => {
                &&& parsed_decimal(text@) == Some(parts_view(mantissa, scale))
                &&& valid_parts(mantissa, scale)
            },
            None => parsed_decimal(text@) is None,
        },
{
    match Decimal::from_str_exact(text) {
        Ok(d) => Some((d.mantissa(), d.scale())),
        Err(_) => None,
    }
}

/// `Decimal`'s `Display`, through `to_string`, on the decimal built from a
/// mantissa and a scale by `Decimal::from_i128_with_scale`. What it prints
/// is named, not restated.
#[verifier::external_body]
fn decimal_to_text(mantissa: i128, scale: u32) -> (r: String)
    requires
        valid_parts(mantissa, scale),
    ensures
        r@ == decimal_text(parts_view(mantissa, scale).mantissa, parts_view(mantissa, scale).scale),
{
    Decimal::from_i128_with_scale(mantissa, scale).to_string()
}

/// A monetary amount.
#[derive(Clone, Copy, Debug)]
pub struct Amount {
    mantissa: i128,
    scale: u32,
}

impl View for Amount {
    type V = AmountView;

    closed spec fn view(&self) -> AmountView {
        parts_view(self.mantissa, self.scale)
    }
}

impl Amount {
    #[verifier::type_invariant]
    spec fn in_range(self) -> bool {
        valid_parts(self.mantissa, self.scale)
    }

    /// The amount `mantissa / 10^scale`, where that is representable.
    pub fn new(mantissa: i128, scale: u32) -> (r: Option<Amount>)
        ensures
            r is Some <==> valid_parts(mantissa, scale),
            r matches Some(a) ==> a@ == parts_view(mantissa, scale),
    {
        if scale <= MAX_SCALE && -MAX_MANTISSA <= mantissa && mantissa <= MAX_MANTISSA {
            Some(Amount { mantissa, scale })
        } else {
            None
        }
    }

    /// The mantissa: the amount without its decimal point.
    pub fn mantissa(&self) -> (r: i128)
        ensures
            r == self@.mantissa,
            -MAX_MANTISSA <= r <= MAX_MANTISSA,
    {
        proof {
            use_type_invariant(self);
        }
        self.mantissa
    }

    /// The scale: the number of fractional digits.
    pub fn scale(&self) -> (r: u32)
        ensures
            r == self@.scale,
            r <= MAX_SCALE,
    {
        proof {
            use_type_invariant(self);
        }
        self.scale
    }

    /// Reads an amount from its decimal text, without rounding.
    pub fn parse(text: &str) -> (r: Option<Amount>)
        ensures
            match r {
                Some(a) => parsed_decimal(text@) == Some(a@),
                None => parsed_decimal(text@) is None,
            },
    {
        match decimal_from_text(text) {
            Some((mantissa, scale)) => Some(Amount { mantissa, scale }),
            None => None,
        }
    }

    /// The decimal text of this amount.
    pub fn to_text(&self) -> (r: String)
        ensures
            r@ == decimal_text(self@.mantissa, self@.scale),
    {
        proof {
            use_type_invariant(self);
        }
        decimal_to_text(self.mantissa, self.scale)
    }

    /// Compares two amounts as numbers.
    pub fn compare(&self, other: &Amount) -> (r: Ordering)
        ensures
            r == amount_order(self@, other@),
    {
        proof {
            use_type_invariant(self);
            use_type_invariant(other);
        }
        decimal_order(self.mantissa, self.scale, other.mantissa, other.scale)
    }
}

impl PartialEqSpecImpl for Amount {
    open spec fn obeys_eq_spec() -> bool {
        true
    }

    open spec fn eq_spec(&self, other: &Amount) -> bool {
        amount_order(self@, other@) == Ordering::Equal
    }
}

impl PartialEq for Amount {
    fn eq(&self, other: &Amount) -> (r: bool) {
        matches!(self.compare(other), Ordering::Equal)
    }
}

impl Eq for Amount {}

impl PartialOrdSpecImpl for Amount {
    open spec fn obeys_partial_cmp_spec() -> bool {
        true
    }

    open spec fn partial_cmp_spec(&self, other: &Amount) -> Option<Ordering> {
        Some(amount_order(self@, other@))
    }
}

impl PartialOrd for Amount {
    fn partial_cmp(&self, other: &Amount) -> (r: Option<Ordering>) {
        Some(self.compare(other))
    }
}

} // verus!
