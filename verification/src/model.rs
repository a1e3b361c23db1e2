//! The ad record and the plain values it is made of.

use vstd::prelude::*;

verus! {

/// Largest number of fractional digits a [`Decimal`] may carry.
pub const MAX_SCALE: u8 = 18;

/// Ten to the power `n`.
pub open spec fn pow10(n: nat) -> int
    decreases n,
{
    if n == 0 {
        1
    } else {
        10 * pow10((n - 1) as nat)
    }
}

/// `pow10` grows with its argument and is at least one.
pub proof fn lemma_pow10_monotone(a: nat, b: nat)
    requires
        a <= b,
    ensures
        1 <= pow10(a) <= pow10(b),
    decreases b,
{
    if a == 0 {
        if b > 0 {
            lemma_pow10_monotone(0, (b - 1) as nat);
        }
    } else {
        lemma_pow10_monotone((a - 1) as nat, (b - 1) as nat);
    }
}

/// The value of `pow10` at the largest scale.
pub proof fn lemma_pow10_max()
    ensures
        pow10(MAX_SCALE as nat) == 1_000_000_000_000_000_000,
{
    reveal_with_fuel(pow10, 20);
}

/// An exact decimal number: `mantissa / 10^scale`. Money never passes
/// through binary floating point.
#[derive(Clone, Copy, Debug, PartialEq, Eq, Structural)]
pub struct Decimal {
    pub mantissa: i64,
    pub scale: u8,
}

impl Decimal {
    /// The scale is within the supported range.
    pub open spec fn well_formed(&self) -> bool {
        self.scale <= MAX_SCALE
    }

    /// Numeric order: both sides brought to a common denominator.
    pub open spec fn less_than(&self, other: &Decimal) -> bool {
        self.mantissa * pow10(other.scale as nat) < other.mantissa * pow10(self.scale as nat)
    }

    /// Builds a decimal; `None` exactly when the scale is out of range.
    pub fn new(mantissa: i64, scale: u8) -> (d: Option<Decimal>)
        ensures
            scale <= MAX_SCALE ==> d == Some(Decimal { mantissa, scale }),
            scale > MAX_SCALE ==> d.is_none(),
            d.is_some() ==> d.unwrap().well_formed(),
    {
        if scale <= MAX_SCALE {
            Some(Decimal { mantissa, scale })
        } else {
            None
        }
    }

    /// A whole number of units.
    pub fn from_units(units: i64) -> (d: Decimal)
        ensures
            d == (Decimal { mantissa: units, scale: 0 }),
            d.well_formed(),
    {
        Decimal { mantissa: units, scale: 0 }
    }

    /// Whether `self` is numerically smaller than `other`.
    pub fn lt(&self, other: &Decimal) -> (r: bool)
        requires
            self.well_formed(),
            other.well_formed(),
        ensures
            r == self.less_than(other),
    {
        let left_factor: i128 = power_of_ten(other.scale);
        let right_factor: i128 = power_of_ten(self.scale);
        let a: i128 = self.mantissa as i128;
        let b: i128 = other.mantissa as i128;
        proof {
            lemma_product_bound(a as int, left_factor as int);
            lemma_product_bound(b as int, right_factor as int);
        }
        a * left_factor < b * right_factor
    }
}

/// A product of a 64-bit value and a power of ten up to the largest scale
/// stays far inside 128 bits.
pub proof fn lemma_product_bound(m: int, f: int)
    requires
        -0x8000_0000_0000_0000 <= m < 0x8000_0000_0000_0000,
        1 <= f <= 1_000_000_000_000_000_000,
    ensures
        -0x8000_0000_0000_0000 * 1_000_000_000_000_000_000 <= m * f,
        m * f <= 0x8000_0000_0000_0000 * 1_000_000_000_000_000_000,
{
    assert(-0x8000_0000_0000_0000 * 1_000_000_000_000_000_000 <= m * f && m * f
        <= 0x8000_0000_0000_0000 * 1_000_000_000_000_000_000) by (nonlinear_arith)
        requires
            -0x8000_0000_0000_0000 <= m < 0x8000_0000_0000_0000,
            1 <= f <= 1_000_000_000_000_000_000,
    ;
}

/// Computes `pow10(n)` for a supported scale.
pub fn power_of_ten(n: u8) -> (p: i128)
    requires
        n <= MAX_SCALE,
    ensures
        p == pow10(n as nat),
        1 <= p <= 1_000_000_000_000_000_000,
{
    let mut p: i128 = 1;
    let mut i: u8 = 0;
    proof {
        lemma_pow10_max();
        lemma_pow10_monotone(0, 0);
    }
    while i < n
        invariant
            i <= n <= MAX_SCALE,
            p == pow10(i as nat),
            1 <= p <= pow10(MAX_SCALE as nat),
            pow10(MAX_SCALE as nat) == 1_000_000_000_000_000_000,
        decreases n - i,
    {
        proof {
            lemma_pow10_monotone((i + 1) as nat, MAX_SCALE as nat);
            lemma_pow10_monotone(i as nat, (i + 1) as nat);
        }
        p = p * 10;
        i = i + 1;
    }
    p
}

/// A naive timestamp (no time zone): microseconds since the Unix epoch.
#[derive(Clone, Copy, Debug, PartialEq, Eq, Structural)]
pub struct Timestamp {
    pub micros: i64,
}

/// Reads the clock with `chrono::Utc::now` and takes the UTC time as
/// microseconds since the epoch, by `timestamp_micros`. Nothing is claimed
/// of the result: it differs from call to call. The clock panics only
/// where the system time lies before the epoch.
#[verifier::external_body]
pub(crate) fn current_time() -> (now: Timestamp) {
    Timestamp { micros: chrono::Utc::now().timestamp_micros() }
}

/// The lifecycle tag given to every newly created ad.
pub open spec fn active_status() -> Seq<char> {
    "active"@
}

/// The views of a list of texts, item by item.
pub open spec fn texts_view(texts: Seq<String>) -> Seq<Seq<char>> {
    Seq::new(texts.len(), |i: int| texts[i]@)
}

/// An advertisement as stored.
#[derive(Clone, Debug, PartialEq, Eq)]
pub struct Ad {
    pub id: i32,
    pub title: String,
    pub description: String,
    pub price: Decimal,
    pub status: String,
    pub user_email: String,
    pub user_phone: String,
    pub created_at: Timestamp,
    pub updated_at: Timestamp,
    pub top_ad: bool,
    pub images: Vec<String>,
}

/// The mathematical value of an [`Ad`].
pub struct AdView {
    pub id: int,
    pub title: Seq<char>,
    pub description: Seq<char>,
    pub price: Decimal,
    pub status: Seq<char>,
    pub user_email: Seq<char>,
    pub user_phone: Seq<char>,
    pub created_at: Timestamp,
    pub updated_at: Timestamp,
    pub top_ad: bool,
    pub images: Seq<Seq<char>>,
}

impl View for Ad {
    type V = AdView;

    open spec fn view(&self) -> AdView {
        AdView {
            id: self.id as int,
            title: self.title@,
            description: self.description@,
            price: self.price,
            status: self.status@,
            user_email: self.user_email@,
            user_phone: self.user_phone@,
            created_at: self.created_at,
            updated_at: self.updated_at,
            top_ad: self.top_ad,
            images: texts_view(self.images@),
        }
    }
}

/// What a client supplies when creating an ad.
#[derive(Clone, Debug, PartialEq, Eq)]
pub struct AdContent {
    pub title: String,
    pub description: String,
    pub price: Decimal,
    pub user_email: String,
    pub user_phone: String,
    pub top_ad: bool,
}

/// The mathematical value of an [`AdContent`].
pub struct AdContentView {
    pub title: Seq<char>,
    pub description: Seq<char>,
    pub price: Decimal,
    pub user_email: Seq<char>,
    pub user_phone: Seq<char>,
    pub top_ad: bool,
}

impl View for AdContent {
    type V = AdContentView;

    open spec fn view(&self) -> AdContentView {
        AdContentView {
            title: self.title@,
            description: self.description@,
            price: self.price,
            user_email: self.user_email@,
            user_phone: self.user_phone@,
            top_ad: self.top_ad,
        }
    }
}

/// The row that creating `content` with `images` at time `now` yields once
/// storage has assigned `id`.
pub open spec fn created_row(
    id: int,
    content: AdContentView,
    images: Seq<Seq<char>>,
    now: Timestamp,
) -> AdView {
    AdView {
        id,
        title: content.title,
        description: content.description,
        price: content.price,
        status: active_status(),
        user_email: content.user_email,
        user_phone: content.user_phone,
        created_at: now,
        updated_at: now,
        top_ad: content.top_ad,
        images,
    }
}

/// Copies a list of texts.
pub fn copy_texts(texts: &Vec<String>) -> (out: Vec<String>)
    ensures
        texts_view(out@) == texts_view(texts@),
{
    let mut out: Vec<String> = Vec::new();
    let mut i: usize = 0;
    while i < texts.len()
        invariant
            i <= texts.len(),
            out.len() == i,
            forall|j: int| 0 <= j < i ==> out[j]@ == texts[j]@,
        decreases texts.len() - i,
    {
        out.push(texts[i].clone());
        i = i + 1;
    }
    assert(texts_view(out@) =~= texts_view(texts@));
    out
}

impl Ad {
    /// Builds the row for a new ad: status "active", both timestamps `now`.
    pub fn from_content(
        id: i32,
        content: AdContent,
        image_ids: Vec<String>,
        now: Timestamp,
    ) -> (ad: Ad)
        ensures
            ad@ == created_row(id as int, content@, texts_view(image_ids@), now),
    {
        Ad {
            id,
            title: content.title,
            description: content.description,
            price: content.price,
            status: String::from_str("active"),
            user_email: content.user_email,
            user_phone: content.user_phone,
            created_at: now,
            updated_at: now,
            top_ad: content.top_ad,
            images: image_ids,
        }
    }

    /// An independent copy with the same value.
    pub fn duplicate(&self) -> (ad: Ad)
        ensures
            ad@ == self@,
    {
        Ad {
            id: self.id,
            title: self.title.clone(),
            description: self.description.clone(),
            price: self.price,
            status: self.status.clone(),
            user_email: self.user_email.clone(),
            user_phone: self.user_phone.clone(),
            created_at: self.created_at,
            updated_at: self.updated_at,
            top_ad: self.top_ad,
            images: copy_texts(&self.images),
        }
    }
}

/// An uploaded image: its content with the metadata stored beside it.
#[derive(Clone, Debug, PartialEq, Eq)]
pub struct Image {
    pub id: Option<String>,
    pub file_name: String,
    pub mime_type: String,
    pub bytes: Vec<u8>,
}

} // verus!
