use vstd::prelude::*;
use crate::text::owned;

verus! {

/// The only event kind a listing address may name.
pub const LISTING_KIND: u16 = 30402;

/// Canonical name of a replaceable listing event: `kind:seller_pubkey:listing_id`.
#[derive(Clone, Debug, PartialEq, Eq)]
pub struct ListingAddress {
    pub kind: u16,
    pub seller_pubkey: String,
    pub listing_id: String,
}

/// Why a listing address was refused.
#[derive(Clone, Copy, Debug, PartialEq, Eq, Structural)]
pub enum ListingAddressError {
    /// Fewer than three `:`-separated segments.
    MissingSegment,
    /// The first segment is not a decimal `u16`.
    InvalidKind,
    /// The kind is a number, but not the listing kind.
    WrongKind,
}

/// Index of the first `:` at or after `from`, or the length when there is none.
pub open spec fn colon_from(s: Seq<char>, from: int) -> int
    decreases s.len() - from,
{
    if from < 0 || from >= s.len() {
        s.len() as int
    } else if s[from] == ':' {
        from
    } else {
        colon_from(s, from + 1)
    }
}

pub open spec fn is_digit(c: char) -> bool {
    '0' <= c && c <= '9'
}

pub open spec fn digit_value(c: char) -> nat {
    (c as nat - '0' as nat) as nat
}

pub open spec fn all_digits(t: Seq<char>) -> bool {
    forall|i: int| 0 <= i < t.len() ==> is_digit(#[trigger] t[i])
}

/// The number that a string of decimal digits denotes.
pub open spec fn decimal_value(t: Seq<char>) -> nat
    decreases t.len(),
{
    if t.len() == 0 {
        0
    } else {
        decimal_value(t.drop_last()) * 10 + digit_value(t.last())
    }
}

/// The shortest decimal spelling of `n`.
pub open spec fn decimal_text(n: nat) -> Seq<char>
    decreases n,
{
    if n < 10 {
        seq![digit_char(n)]
    } else {
        decimal_text(n / 10).push(digit_char(n % 10))
    }
}

pub open spec fn digit_char(d: nat) -> char {
    if d == 0 { '0' } else if d == 1 { '1' } else if d == 2 { '2' } else if d == 3 { '3' }
    else if d == 4 { '4' } else if d == 5 { '5' } else if d == 6 { '6' } else if d == 7 { '7' }
    else if d == 8 { '8' } else { '9' }
}

/// What parsing `s` as a listing address yields.
pub open spec fn parse_spec(s: Seq<char>) -> Result<(u16, Seq<char>, Seq<char>), ListingAddressError> {
    let i1 = colon_from(s, 0);
    let i2 = colon_from(s, i1 + 1);
    let kind_text = s.subrange(0, i1);
    if i1 >= s.len() || i2 >= s.len() {
        Err(ListingAddressError::MissingSegment)
    } else if kind_text.len() == 0 || !all_digits(kind_text) || decimal_value(kind_text) > 65535 {
        Err(ListingAddressError::InvalidKind)
    } else if decimal_value(kind_text) != LISTING_KIND as nat {
        Err(ListingAddressError::WrongKind)
    } else {
        Ok((LISTING_KIND, s.subrange(i1 + 1, i2), s.subrange(i2 + 1, s.len() as int)))
    }
}

/// The canonical text of an address.
pub open spec fn canonical_spec(kind: u16, seller: Seq<char>, id: Seq<char>) -> Seq<char> {
    decimal_text(kind as nat) + seq![':'] + seller + seq![':'] + id
}

pub open spec fn has_no_colon(t: Seq<char>) -> bool {
    forall|i: int| 0 <= i < t.len() ==> #[trigger] t[i] != ':'
}

impl ListingAddress {
    /// A well-formed address names the listing kind, and its seller key holds no `:`.
    pub open spec fn well_formed(&self) -> bool {
        self.kind == LISTING_KIND && has_no_colon(self.seller_pubkey@)
    }

    /// Parses `kind:seller_pubkey:listing_id`, splitting on the first two `:`.
    pub fn parse(s: &str) -> (r: Result<ListingAddress, ListingAddressError>)
        ensures
            match (r, parse_spec(s@)) {
                (Ok(a), Ok((k, seller, id))) => a.kind == k && a.seller_pubkey@ == seller
                    && a.listing_id@ == id,
                (Err(e), Err(e2)) => e == e2,
                _ => false,
            },
    {
        let n = s.unicode_len();
        let i1 = find_colon(s, 0);
        if i1 >= n {
            return Err(ListingAddressError::MissingSegment);
        }
        let i2 = find_colon(s, i1 + 1);
        proof {
            lemma_colon_from_bounds(s@, i1 + 1);
        }
        if i2 >= n {
            return Err(ListingAddressError::MissingSegment);
        }
        let kind = match parse_u16(s.substring_char(0, i1)) {
            Some(k) => k,
            None => {
                return Err(ListingAddressError::InvalidKind);
            },
        };
        if kind != LISTING_KIND {
            return Err(ListingAddressError::WrongKind);
        }
        Ok(ListingAddress {
            kind,
            seller_pubkey: owned(s.substring_char(i1 + 1, i2)),
            listing_id: owned(s.substring_char(i2 + 1, n)),
        })
    }

    /// The canonical text `kind:seller_pubkey:listing_id`.
    pub fn canonical(&self) -> (r: String)
        ensures
            r@ == canonical_spec(self.kind, self.seller_pubkey@, self.listing_id@),
    {
        let mut out = String::new();
        push_decimal(&mut out, self.kind);
        out.append(":");
        out.append(self.seller_pubkey.as_str());
        out.append(":");
        out.append(self.listing_id.as_str());
        proof {
            reveal_strlit(":");
        }
        out
    }
}

proof fn lemma_colon_from_bounds(s: Seq<char>, from: int)
    requires
        0 <= from <= s.len(),
    ensures
        from <= colon_from(s, from) <= s.len(),
    decreases s.len() - from,
{
    if from < s.len() && s[from] != ':' {
        lemma_colon_from_bounds(s, from + 1);
    }
}

/// Position of the first `:` at or after `from`, or the length when there is none.
fn find_colon(s: &str, from: usize) -> (r: usize)
    requires
        from <= s@.len(),
    ensures
        r as int == colon_from(s@, from as int),
{
    let n = s.unicode_len();
    let mut i = from;
    while i < n
        invariant
            n == s@.len(),
            from <= i <= n,
            colon_from(s@, from as int) == colon_from(s@, i as int),
        decreases n - i,
    {
        if s.get_char(i) == ':' {
            return i;
        }
        i = i + 1;
    }
    i
}

/// Reads a nonempty string of decimal digits whose value fits in a `u16`.
fn parse_u16(t: &str) -> (r: Option<u16>)
    ensures
        match r {
            Some(v) => t@.len() > 0 && all_digits(t@) && decimal_value(t@) == v as nat,
            None => !(t@.len() > 0 && all_digits(t@) && decimal_value(t@) <= 65535),
        },
{
    let n = t.unicode_len();
    if n == 0 {
        return None;
    }
    let mut acc: u32 = 0;
    let mut i: usize = 0;
    while i < n
        invariant
            n == t@.len(),
            i <= n,
            all_digits(t@.subrange(0, i as int)),
            acc as nat == decimal_value(t@.subrange(0, i as int)),
            acc <= 65535,
        decreases n - i,
    {
        let c = t.get_char(i);
        let prefix = Ghost(t@.subrange(0, i as int));
        let next = Ghost(t@.subrange(0, i as int + 1));
        assert(next@.drop_last() =~= prefix@);
        if !('0' <= c && c <= '9') {
            assert(!all_digits(t@)) by {
                assert(!is_digit(t@[i as int]));
            }
            return None;
        }
        let d = (c as u32) - ('0' as u32);
        acc = acc * 10 + d;
        assert(all_digits(next@)) by {
            assert forall|j: int| 0 <= j < next@.len() implies is_digit(#[trigger] next@[j]) by {
                if j < i {
                    assert(next@[j] == prefix@[j]);
                }
            }
        }
        if acc > 65535 {
            proof {
                if all_digits(t@) {
                    lemma_decimal_prefix_grows(t@, i as int + 1);
                }
            }
            return None;
        }
        i = i + 1;
    }
    assert(t@.subrange(0, n as int) =~= t@);
    Some(acc as u16)
}

/// A longer digit string never denotes a smaller number than its prefix.
proof fn lemma_decimal_prefix_grows(t: Seq<char>, k: int)
    requires
        0 <= k <= t.len(),
        all_digits(t),
    ensures
        decimal_value(t.subrange(0, k)) <= decimal_value(t),
    decreases t.len() - k,
{
    if k < t.len() {
        lemma_decimal_prefix_grows(t, k + 1);
        let p = t.subrange(0, k + 1);
        assert(p.drop_last() =~= t.subrange(0, k));
    } else {
        assert(t.subrange(0, k) =~= t);
    }
}

/// The one-character string for a decimal digit.
fn digit_str(d: u16) -> (r: &'static str)
    requires
        d < 10,
    ensures
        r@ == seq![digit_char(d as nat)],
{
    proof {
        reveal_strlit("0");
        reveal_strlit("1");
        reveal_strlit("2");
        reveal_strlit("3");
        reveal_strlit("4");
        reveal_strlit("5");
        reveal_strlit("6");
        reveal_strlit("7");
        reveal_strlit("8");
        reveal_strlit("9");
    }
    if d == 0 {
        assert("0"@ =~= seq!['0']);
        "0"
    } else if d == 1 {
        assert("1"@ =~= seq!['1']);
        "1"
    } else if d == 2 {
        assert("2"@ =~= seq!['2']);
        "2"
    } else if d == 3 {
        assert("3"@ =~= seq!['3']);
        "3"
    } else if d == 4 {
        assert("4"@ =~= seq!['4']);
        "4"
    } else if d == 5 {
        assert("5"@ =~= seq!['5']);
        "5"
    } else if d == 6 {
        assert("6"@ =~= seq!['6']);
        "6"
    } else if d == 7 {
        assert("7"@ =~= seq!['7']);
        "7"
    } else if d == 8 {
        assert("8"@ =~= seq!['8']);
        "8"
    } else {
        assert("9"@ =~= seq!['9']);
        "9"
    }
}

/// Appends the decimal spelling of `n`.
fn push_decimal(out: &mut String, n: u16)
    ensures
        final(out)@ == old(out)@ + decimal_text(n as nat),
    decreases n,
{
    if n >= 10 {
        push_decimal(out, n / 10);
    }
    out.append(digit_str(n % 10));
    proof {
        if n >= 10 {
            assert(decimal_text(n as nat) == decimal_text((n / 10) as nat).push(digit_char((n % 10) as nat)));
        }
    }
    assert(final(out)@ =~= old(out)@ + decimal_text(n as nat));
}

proof fn lemma_digit_char(d: nat)
    requires
        d < 10,
    ensures
        is_digit(digit_char(d)),
        digit_value(digit_char(d)) == d,
{
    assert(d == 0 || d == 1 || d == 2 || d == 3 || d == 4 || d == 5 || d == 6 || d == 7
        || d == 8 || d == 9);
}

proof fn lemma_decimal_text(n: nat)
    ensures
        decimal_text(n).len() > 0,
        all_digits(decimal_text(n)),
        has_no_colon(decimal_text(n)),
        decimal_value(decimal_text(n)) == n,
    decreases n,
{
    let t = decimal_text(n);
    if n < 10 {
        lemma_digit_char(n);
        assert(t.drop_last() =~= Seq::<char>::empty());
        assert(decimal_value(t.drop_last()) == 0);
        assert(t.last() == digit_char(n));
    } else {
        lemma_digit_char(n % 10);
        lemma_decimal_text(n / 10);
        let p = decimal_text(n / 10);
        assert(t.drop_last() =~= p);
        assert(t.last() == digit_char(n % 10));
        assert(decimal_value(t) == decimal_value(p) * 10 + digit_value(t.last()));
        assert((n / 10) * 10 + n % 10 == n) by (nonlinear_arith);
        assert forall|i: int| 0 <= i < t.len() implies is_digit(#[trigger] t[i]) && t[i] != ':' by {
            if i < p.len() {
                assert(t[i] == p[i]);
            }
        }
    }
}

/// `colon_from` finds the first `:` at or after `from`.
proof fn lemma_colon_at(s: Seq<char>, from: int, k: int)
    requires
        0 <= from <= k <= s.len(),
        k == s.len() || s[k] == ':',
        forall|i: int| from <= i < k ==> #[trigger] s[i] != ':',
    ensures
        colon_from(s, from) == k,
    decreases k - from,
{
    if from < k {
        lemma_colon_at(s, from + 1, k);
    }
}

/// Formatting a well-formed address and parsing the text gives the address back.
pub proof fn lemma_parse_canonical(a: ListingAddress)
    requires
        a.well_formed(),
    ensures
        parse_spec(canonical_spec(a.kind, a.seller_pubkey@, a.listing_id@))
            == Ok::<(u16, Seq<char>, Seq<char>), ListingAddressError>(
            (a.kind, a.seller_pubkey@, a.listing_id@),
        ),
{
    let d = decimal_text(a.kind as nat);
    let seller = a.seller_pubkey@;
    let id = a.listing_id@;
    let s = canonical_spec(a.kind, seller, id);
    lemma_decimal_text(a.kind as nat);
    let i1 = d.len() as int;
    let i2 = i1 + 1 + seller.len();
    assert(s[i1] == ':');
    assert(s[i2] == ':');
    assert forall|i: int| 0 <= i < i1 implies #[trigger] s[i] != ':' by {
        assert(s[i] == d[i]);
    }
    assert forall|i: int| i1 + 1 <= i < i2 implies #[trigger] s[i] != ':' by {
        assert(s[i] == seller[i - i1 - 1]);
    }
    lemma_colon_at(s, 0, i1);
    lemma_colon_at(s, i1 + 1, i2);
    assert(s.subrange(0, i1) =~= d);
    assert(s.subrange(i1 + 1, i2) =~= seller);
    assert(s.subrange(i2 + 1, s.len() as int) =~= id);
}

/// Text with a numeric kind other than the listing kind is refused.
pub proof fn lemma_parse_rejects_wrong_kind(kind: u16, seller: Seq<char>, id: Seq<char>)
    requires
        kind != LISTING_KIND,
        has_no_colon(seller),
    ensures
        parse_spec(canonical_spec(kind, seller, id)) == Err::<(u16, Seq<char>, Seq<char>), ListingAddressError>(
            ListingAddressError::WrongKind,
        ),
{
    let d = decimal_text(kind as nat);
    let s = canonical_spec(kind, seller, id);
    lemma_decimal_text(kind as nat);
    let i1 = d.len() as int;
    let i2 = i1 + 1 + seller.len();
    assert(s[i1] == ':');
    assert(s[i2] == ':');
    assert forall|i: int| 0 <= i < i1 implies #[trigger] s[i] != ':' by {
        assert(s[i] == d[i]);
    }
    assert forall|i: int| i1 + 1 <= i < i2 implies #[trigger] s[i] != ':' by {
        assert(s[i] == seller[i - i1 - 1]);
    }
    lemma_colon_at(s, 0, i1);
    lemma_colon_at(s, i1 + 1, i2);
    assert(s.subrange(0, i1) =~= d);
}

/// Text with a single `:` has too few segments and is refused.
pub proof fn lemma_parse_rejects_two_segments(first: Seq<char>, second: Seq<char>)
    requires
        has_no_colon(first),
        has_no_colon(second),
    ensures
        parse_spec(first + seq![':'] + second) == Err::<(u16, Seq<char>, Seq<char>), ListingAddressError>(
            ListingAddressError::MissingSegment,
        ),
{
    let s = first + seq![':'] + second;
    let i1 = first.len() as int;
    assert forall|i: int| 0 <= i < i1 implies #[trigger] s[i] != ':' by {
        assert(s[i] == first[i]);
    }
    assert forall|i: int| i1 + 1 <= i < s.len() implies #[trigger] s[i] != ':' by {
        assert(s[i] == second[i - i1 - 1]);
    }
    lemma_colon_at(s, 0, i1);
    lemma_colon_at(s, i1 + 1, s.len() as int);
}

/// Text without any `:` is refused.
pub proof fn lemma_parse_rejects_one_segment(s: Seq<char>)
    requires
        has_no_colon(s),
    ensures
        parse_spec(s) == Err::<(u16, Seq<char>, Seq<char>), ListingAddressError>(
            ListingAddressError::MissingSegment,
        ),
{
    lemma_colon_at(s, 0, s.len() as int);
}

} // verus!
