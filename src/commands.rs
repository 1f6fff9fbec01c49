//! The command grammar: a line is a header of colon-separated mnemonics, an
//! optional `?` that makes it a query, and an optional parameter after a space.

use vstd::prelude::*;
use vstd::slice::slice_subrange;

verus! {

/// Separator between the mnemonics of a header.
pub const COLON: u8 = 58;

/// Separator between the header and the parameter.
pub const SPACE: u8 = 32;

/// Suffix that marks a query.
pub const QUESTION: u8 = 63;

pub open spec fn is_ascii_upper(b: u8) -> bool {
    65 <= b <= 90
}

pub open spec fn is_ascii_lower(b: u8) -> bool {
    97 <= b <= 122
}

pub open spec fn is_ascii_digit(b: u8) -> bool {
    48 <= b <= 57
}

pub open spec fn ascii_lower(b: u8) -> u8 {
    if is_ascii_upper(b) {
        (b + 32) as u8
    } else {
        b
    }
}

/// Whether `s` matches the mnemonic `m` as it stands, where the capitals of `m` (with its
/// digits) are the short form and the whole of `m` the long form: `s` equals,
/// ignoring ASCII case, either all of `m` or a prefix of it that covers no
/// lower-case letter and leaves out no capital or digit.
pub open spec fn mnemonic_matches(m: Seq<u8>, s: Seq<u8>) -> bool {
    &&& s.len() <= m.len()
    &&& forall|i: int| 0 <= i < s.len() ==> ascii_lower(#[trigger] m[i]) == ascii_lower(s[i])
    &&& (s.len() == m.len() || ((forall|i: int| 0 <= i < s.len() ==> !is_ascii_lower(#[trigger] m[i]))
        && (forall|i: int|
        s.len() <= i < m.len() ==> !is_ascii_upper(#[trigger] m[i]) && !is_ascii_digit(m[i]))))
}

/// Position of the last byte that is not a decimal digit, or -1.
pub open spec fn last_non_digit(s: Seq<u8>) -> int
    decreases s.len(),
{
    if s.len() == 0 {
        -1
    } else if !is_ascii_digit(s.last()) {
        s.len() - 1
    } else {
        last_non_digit(s.drop_last())
    }
}

/// A mnemonic split into its stem and its numeric suffix, when it ends in
/// digits after at least one other byte.
pub open spec fn suffix_split(s: Seq<u8>) -> Option<(Seq<u8>, Seq<u8>)> {
    let k = last_non_digit(s);
    if k < 0 || k == s.len() - 1 {
        None
    } else {
        Some((s.take(k + 1), s.skip(k + 1)))
    }
}

/// Whether `s` names the mnemonic `m`, allowing a numeric suffix: either the
/// two match as they stand, or their stems match and their suffixes are
/// equal, a missing suffix counting as `1`.
pub open spec fn mnemonic_names(m: Seq<u8>, s: Seq<u8>) -> bool {
    mnemonic_matches(m, s) || match (suffix_split(m), suffix_split(s)) {
        (None, None) => false,
        (Some((stem, index)), None) => mnemonic_matches(stem, s) && index == seq![49u8],
        (None, Some((stem, index))) => mnemonic_matches(m, stem) && index == seq![49u8],
        (Some((stem1, index1)), Some((stem2, index2))) => mnemonic_matches(stem1, stem2) && index1
            == index2,
    }
}

/// Relies on scpi::parser::mnemonic_match: it tells whether a header
/// mnemonic written by a client names a mnemonic of the command tree, numeric
/// suffix included, as `mnemonic_names` states.
#[verifier::external_body]
fn mnemonic_match(mnemonic: &[u8], s: &[u8]) -> (r: bool)
    ensures
        r == mnemonic_names(mnemonic@, s@),
{
    scpi::parser::mnemonic_match(mnemonic, s)
}

/// The mnemonics of the command tree.
#[derive(Debug, Clone, Copy, PartialEq, Eq, Structural)]
pub enum Mnemonic {
    Idn,
    Led,
    Toggle,
    On,
    Off,
    Power,
    Dcdc,
    Acdc,
    Val,
    Speed,
}

/// Spelling of a mnemonic: capitals for the short form.
pub open spec fn mnemonic_text(m: Mnemonic) -> Seq<u8> {
    match m {
        // *IDN
        Mnemonic::Idn => seq![42u8, 73u8, 68u8, 78u8],
        // LED
        Mnemonic::Led => seq![76u8, 69u8, 68u8],
        // TOGGle
        Mnemonic::Toggle => seq![84u8, 79u8, 71u8, 71u8, 108u8, 101u8],
        // ON
        Mnemonic::On => seq![79u8, 78u8],
        // OFF
        Mnemonic::Off => seq![79u8, 70u8, 70u8],
        // POWEr
        Mnemonic::Power => seq![80u8, 79u8, 87u8, 69u8, 114u8],
        // DCDC
        Mnemonic::Dcdc => seq![68u8, 67u8, 68u8, 67u8],
        // ACDC
        Mnemonic::Acdc => seq![65u8, 67u8, 68u8, 67u8],
        // VAL
        Mnemonic::Val => seq![86u8, 65u8, 76u8],
        // SPEEd
        Mnemonic::Speed => seq![83u8, 80u8, 69u8, 69u8, 100u8],
    }
}

fn mnemonic_bytes(m: Mnemonic) -> (r: Vec<u8>)
    ensures
        r@ == mnemonic_text(m),
{
    match m {
        Mnemonic::Idn => vec![42u8, 73u8, 68u8, 78u8],
        Mnemonic::Led => vec![76u8, 69u8, 68u8],
        Mnemonic::Toggle => vec![84u8, 79u8, 71u8, 71u8, 108u8, 101u8],
        Mnemonic::On => vec![79u8, 78u8],
        Mnemonic::Off => vec![79u8, 70u8, 70u8],
        Mnemonic::Power => vec![80u8, 79u8, 87u8, 69u8, 114u8],
        Mnemonic::Dcdc => vec![68u8, 67u8, 68u8, 67u8],
        Mnemonic::Acdc => vec![65u8, 67u8, 68u8, 67u8],
        Mnemonic::Val => vec![86u8, 65u8, 76u8],
        Mnemonic::Speed => vec![83u8, 80u8, 69u8, 69u8, 100u8],
    }
}


/// The byte strings held by a list of vectors.
pub open spec fn byte_views(v: Seq<Vec<u8>>) -> Seq<Seq<u8>> {
    v.map_values(|x: Vec<u8>| x@)
}

/// Whether the `i`-th segment names `m`.
pub open spec fn names(segs: Seq<Seq<u8>>, i: int, m: Mnemonic) -> bool {
    0 <= i < segs.len() && mnemonic_names(mnemonic_text(m), segs[i])
}

fn segment_names(segs: &Vec<Vec<u8>>, i: usize, m: Mnemonic) -> (r: bool)
    ensures
        r == names(byte_views(segs@), i as int, m),
{
    if i < segs.len() {
        let text = mnemonic_bytes(m);
        mnemonic_match(text.as_slice(), segs[i].as_slice())
    } else {
        false
    }
}

/// The colon-separated segments of a header path; an empty path is one
/// empty segment.
pub open spec fn segments(p: Seq<u8>) -> Seq<Seq<u8>>
    decreases p.len(),
{
    if p.len() == 0 {
        seq![Seq::empty()]
    } else {
        let init = segments(p.drop_last());
        if p.last() == COLON {
            init.push(Seq::empty())
        } else {
            init.update(init.len() - 1, init.last().push(p.last()))
        }
    }
}

/// Splits a header path at its colons.
pub fn split_segments(p: &[u8]) -> (r: Vec<Vec<u8>>)
    ensures
        byte_views(r@) == segments(p@),
{
    let mut done: Vec<Vec<u8>> = Vec::new();
    let mut cur: Vec<u8> = Vec::new();
    let mut i: usize = 0;
    assert(p@.take(0) == Seq::<u8>::empty());
    assert(byte_views(done@).push(cur@) =~= segments(p@.take(0)));
    while i < p.len()
        invariant
            0 <= i <= p@.len(),
            byte_views(done@).push(cur@) == segments(p@.take(i as int)),
        decreases p@.len() - i,
    {
        let b = p[i];
        assert(p@.take(i + 1).drop_last() == p@.take(i as int));
        assert(p@.take(i + 1).last() == b);
        let ghost before = byte_views(done@);
        if b == COLON {
            let finished = cur;
            done.push(finished);
            cur = Vec::new();
            assert(byte_views(done@) =~= before.push(finished@));
            assert(byte_views(done@).push(cur@) =~= segments(p@.take(i + 1)));
        } else {
            let ghost old_cur = cur@;
            cur.push(b);
            assert(byte_views(done@).push(cur@) =~= before.push(old_cur).update(
                before.len() as int,
                old_cur.push(b),
            ));
        }
        i = i + 1;
    }
    assert(p@.take(i as int) == p@);
    let ghost before = byte_views(done@);
    let last = cur;
    done.push(last);
    assert(byte_views(done@) =~= before.push(last@));
    done
}

/// Position of the first space, or the length when there is none.
pub open spec fn space_index(t: Seq<u8>) -> int
    decreases t.len(),
{
    if t.len() == 0 {
        0
    } else if t[0] == SPACE {
        0
    } else {
        1 + space_index(t.drop_first())
    }
}

proof fn lemma_space_index(t: Seq<u8>, k: int)
    requires
        0 <= k <= t.len(),
        forall|j: int| 0 <= j < k ==> t[j] != SPACE,
        k == t.len() || t[k] == SPACE,
    ensures
        space_index(t) == k,
    decreases k,
{
    if k > 0 {
        lemma_space_index(t.drop_first(), k - 1);
    }
}

/// The header: everything before the first space.
pub open spec fn header_of(t: Seq<u8>) -> Seq<u8> {
    t.take(space_index(t))
}

/// The parameter: everything after the first space; empty without a space.
pub open spec fn param_of(t: Seq<u8>) -> Seq<u8> {
    if space_index(t) < t.len() {
        t.skip(space_index(t) + 1)
    } else {
        Seq::empty()
    }
}

/// Whether the header ends in `?`.
pub open spec fn is_query(t: Seq<u8>) -> bool {
    header_of(t).len() > 0 && header_of(t).last() == QUESTION
}

/// The header without its `?`.
pub open spec fn path_of(t: Seq<u8>) -> Seq<u8> {
    if is_query(t) {
        header_of(t).drop_last()
    } else {
        header_of(t)
    }
}

/// Value of a string of decimal digits.
pub open spec fn decimal_value(s: Seq<u8>) -> nat
    decreases s.len(),
{
    if s.len() == 0 {
        0
    } else {
        decimal_value(s.drop_last()) * 10 + (s.last() - 48) as nat
    }
}

/// Whether a parameter is a speed: one to five decimal digits of a value
/// that fits in 16 bits.
pub open spec fn is_speed(s: Seq<u8>) -> bool {
    &&& 1 <= s.len() <= 5
    &&& forall|i: int| 0 <= i < s.len() ==> is_ascii_digit(#[trigger] s[i])
    &&& decimal_value(s) <= u16::MAX
}

/// Reads a speed parameter.
pub fn parse_speed(s: &[u8]) -> (r: Option<u16>)
    ensures
        r == (if is_speed(s@) { Some(decimal_value(s@) as u16) } else { None::<u16> }),
{
    if s.len() < 1 || s.len() > 5 {
        return None;
    }
    let mut value: u32 = 0;
    let mut i: usize = 0;
    assert(s@.take(0) == Seq::<u8>::empty());
    while i < s.len()
        invariant
            1 <= s@.len() <= 5,
            0 <= i <= s@.len(),
            forall|j: int| 0 <= j < i ==> is_ascii_digit(#[trigger] s@[j]),
            value == decimal_value(s@.take(i as int)),
            value < pow10(i as nat),
        decreases s@.len() - i,
    {
        let d = s[i];
        if d < 48 || d > 57 {
            assert(!is_ascii_digit(s@[i as int]));
            return None;
        }
        assert(s@.take(i + 1).drop_last() == s@.take(i as int));
        proof {
            lemma_pow10_step(i as nat);
            assert(value * 10 + 9 < pow10((i + 1) as nat)) by (nonlinear_arith)
                requires
                    value < pow10(i as nat),
                    pow10((i + 1) as nat) == pow10(i as nat) * 10,
            ;
            lemma_pow10_bound(i as nat);
        }
        value = value * 10 + (d - 48) as u32;
        i = i + 1;
    }
    assert(s@.take(i as int) == s@);
    if value > 65535 {
        None
    } else {
        Some(value as u16)
    }
}

/// Ten to the power `n`.
pub open spec fn pow10(n: nat) -> nat
    decreases n,
{
    if n == 0 {
        1
    } else {
        pow10((n - 1) as nat) * 10
    }
}

proof fn lemma_pow10_step(n: nat)
    ensures
        pow10(n + 1) == pow10(n) * 10,
{
}

proof fn lemma_pow10_bound(n: nat)
    requires
        n <= 4,
    ensures
        pow10(n + 1) <= 100000,
{
    reveal_with_fuel(pow10, 6);
}


/// A recognised command line.
#[derive(Debug, Clone, Copy, PartialEq, Eq, Structural)]
pub enum Request {
    /// `*IDN?`
    Identify,
    /// `LED:TOGGle`
    LedToggle,
    /// `LED:ON`
    LedOn,
    /// `LED:OFF`
    LedOff,
    /// `LED?`
    LedQuery,
    /// `POWEr:ON`
    PowerOn,
    /// `POWEr:OFF`
    PowerOff,
    /// `POWEr?`
    PowerQuery,
    /// `POWEr:DCDC:ON`
    DcdcOn,
    /// `POWEr:DCDC:OFF`
    DcdcOff,
    /// `POWEr:DCDC?`
    DcdcQuery,
    /// `POWEr:DCDC:VAL?`
    DcdcValue,
    /// `POWEr:ACDC:ON`
    AcdcOn,
    /// `POWEr:ACDC:OFF`
    AcdcOff,
    /// `POWEr:ACDC?`
    AcdcQuery,
    /// `POWEr:ACDC:VAL?`
    AcdcValue,
    /// `SPEEd:ON`
    SpeedOn,
    /// `SPEEd:OFF`
    SpeedOff,
    /// `SPEEd?`
    SpeedQuery,
    /// `SPEEd <value>`
    SpeedSet(u16),
}

/// Whether the path is exactly the one mnemonic `a`.
pub open spec fn path1(segs: Seq<Seq<u8>>, a: Mnemonic) -> bool {
    segs.len() == 1 && names(segs, 0, a)
}

/// Whether the path is exactly the mnemonics `a:b`.
pub open spec fn path2(segs: Seq<Seq<u8>>, a: Mnemonic, b: Mnemonic) -> bool {
    segs.len() == 2 && names(segs, 0, a) && names(segs, 1, b)
}

/// Whether the path is exactly the mnemonics `a:b:c`.
pub open spec fn path3(segs: Seq<Seq<u8>>, a: Mnemonic, b: Mnemonic, c: Mnemonic) -> bool {
    segs.len() == 3 && names(segs, 0, a) && names(segs, 1, b) && names(segs, 2, c)
}

/// The command that a path, a query mark and a parameter select in the tree.
/// A query leaf answers only the query form and an event leaf only the plain
/// form, both without a parameter; `SPEEd` with a speed parameter sets it.
pub open spec fn resolve(segs: Seq<Seq<u8>>, query: bool, param: Seq<u8>) -> Option<Request> {
    let ask = query && param.len() == 0;
    let event = !query && param.len() == 0;
    if path1(segs, Mnemonic::Idn) && ask {
        Some(Request::Identify)
    } else if path1(segs, Mnemonic::Led) && ask {
        Some(Request::LedQuery)
    } else if path2(segs, Mnemonic::Led, Mnemonic::Toggle) && event {
        Some(Request::LedToggle)
    } else if path2(segs, Mnemonic::Led, Mnemonic::On) && event {
        Some(Request::LedOn)
    } else if path2(segs, Mnemonic::Led, Mnemonic::Off) && event {
        Some(Request::LedOff)
    } else if path1(segs, Mnemonic::Power) && ask {
        Some(Request::PowerQuery)
    } else if path2(segs, Mnemonic::Power, Mnemonic::On) && event {
        Some(Request::PowerOn)
    } else if path2(segs, Mnemonic::Power, Mnemonic::Off) && event {
        Some(Request::PowerOff)
    } else if path2(segs, Mnemonic::Power, Mnemonic::Dcdc) && ask {
        Some(Request::DcdcQuery)
    } else if path3(segs, Mnemonic::Power, Mnemonic::Dcdc, Mnemonic::On) && event {
        Some(Request::DcdcOn)
    } else if path3(segs, Mnemonic::Power, Mnemonic::Dcdc, Mnemonic::Off) && event {
        Some(Request::DcdcOff)
    } else if path3(segs, Mnemonic::Power, Mnemonic::Dcdc, Mnemonic::Val) && ask {
        Some(Request::DcdcValue)
    } else if path2(segs, Mnemonic::Power, Mnemonic::Acdc) && ask {
        Some(Request::AcdcQuery)
    } else if path3(segs, Mnemonic::Power, Mnemonic::Acdc, Mnemonic::On) && event {
        Some(Request::AcdcOn)
    } else if path3(segs, Mnemonic::Power, Mnemonic::Acdc, Mnemonic::Off) && event {
        Some(Request::AcdcOff)
    } else if path3(segs, Mnemonic::Power, Mnemonic::Acdc, Mnemonic::Val) && ask {
        Some(Request::AcdcValue)
    } else if path1(segs, Mnemonic::Speed) && ask {
        Some(Request::SpeedQuery)
    } else if path2(segs, Mnemonic::Speed, Mnemonic::On) && event {
        Some(Request::SpeedOn)
    } else if path2(segs, Mnemonic::Speed, Mnemonic::Off) && event {
        Some(Request::SpeedOff)
    } else if path1(segs, Mnemonic::Speed) && !query && is_speed(param) {
        Some(Request::SpeedSet(decimal_value(param) as u16))
    } else {
        None
    }
}

/// The command that a line selects, if any.
pub open spec fn parse(t: Seq<u8>) -> Option<Request> {
    resolve(segments(path_of(t)), is_query(t), param_of(t))
}

fn path1_is(segs: &Vec<Vec<u8>>, a: Mnemonic) -> (r: bool)
    ensures
        r == path1(byte_views(segs@), a),
{
    segs.len() == 1 && segment_names(segs, 0, a)
}

fn path2_is(segs: &Vec<Vec<u8>>, a: Mnemonic, b: Mnemonic) -> (r: bool)
    ensures
        r == path2(byte_views(segs@), a, b),
{
    segs.len() == 2 && segment_names(segs, 0, a) && segment_names(segs, 1, b)
}

fn path3_is(segs: &Vec<Vec<u8>>, a: Mnemonic, b: Mnemonic, c: Mnemonic) -> (r: bool)
    ensures
        r == path3(byte_views(segs@), a, b, c),
{
    segs.len() == 3 && segment_names(segs, 0, a) && segment_names(segs, 1, b) && segment_names(
        segs,
        2,
        c,
    )
}

/// Parses a command line against the command tree.
pub fn parse_command(t: &[u8]) -> (r: Option<Request>)
    ensures
        r == parse(t@),
{
    let mut k: usize = 0;
    while k < t.len() && t[k] != SPACE
        invariant
            0 <= k <= t@.len(),
            forall|j: int| 0 <= j < k ==> t@[j] != SPACE,
        decreases t@.len() - k,
    {
        k = k + 1;
    }
    proof {
        lemma_space_index(t@, k as int);
    }
    let header = slice_subrange(t, 0, k);
    assert(header@ == header_of(t@));
    let param = if k < t.len() {
        slice_subrange(t, k + 1, t.len())
    } else {
        slice_subrange(t, k, k)
    };
    assert(param@ =~= param_of(t@));
    let query = header.len() > 0 && header[header.len() - 1] == QUESTION;
    let path = if query {
        slice_subrange(header, 0, header.len() - 1)
    } else {
        header
    };
    assert(path@ =~= path_of(t@));
    let segs = split_segments(path);
    let ask = query && param.len() == 0;
    let event = !query && param.len() == 0;
    if path1_is(&segs, Mnemonic::Idn) && ask {
        Some(Request::Identify)
    } else if path1_is(&segs, Mnemonic::Led) && ask {
        Some(Request::LedQuery)
    } else if path2_is(&segs, Mnemonic::Led, Mnemonic::Toggle) && event {
        Some(Request::LedToggle)
    } else if path2_is(&segs, Mnemonic::Led, Mnemonic::On) && event {
        Some(Request::LedOn)
    } else if path2_is(&segs, Mnemonic::Led, Mnemonic::Off) && event {
        Some(Request::LedOff)
    } else if path1_is(&segs, Mnemonic::Power) && ask {
        Some(Request::PowerQuery)
    } else if path2_is(&segs, Mnemonic::Power, Mnemonic::On) && event {
        Some(Request::PowerOn)
    } else if path2_is(&segs, Mnemonic::Power, Mnemonic::Off) && event {
        Some(Request::PowerOff)
    } else if path2_is(&segs, Mnemonic::Power, Mnemonic::Dcdc) && ask {
        Some(Request::DcdcQuery)
    } else if path3_is(&segs, Mnemonic::Power, Mnemonic::Dcdc, Mnemonic::On) && event {
        Some(Request::DcdcOn)
    } else if path3_is(&segs, Mnemonic::Power, Mnemonic::Dcdc, Mnemonic::Off) && event {
        Some(Request::DcdcOff)
    } else if path3_is(&segs, Mnemonic::Power, Mnemonic::Dcdc, Mnemonic::Val) && ask {
        Some(Request::DcdcValue)
    } else if path2_is(&segs, Mnemonic::Power, Mnemonic::Acdc) && ask {
        Some(Request::AcdcQuery)
    } else if path3_is(&segs, Mnemonic::Power, Mnemonic::Acdc, Mnemonic::On) && event {
        Some(Request::AcdcOn)
    } else if path3_is(&segs, Mnemonic::Power, Mnemonic::Acdc, Mnemonic::Off) && event {
        Some(Request::AcdcOff)
    } else if path3_is(&segs, Mnemonic::Power, Mnemonic::Acdc, Mnemonic::Val) && ask {
        Some(Request::AcdcValue)
    } else if path1_is(&segs, Mnemonic::Speed) && ask {
        Some(Request::SpeedQuery)
    } else if path2_is(&segs, Mnemonic::Speed, Mnemonic::On) && event {
        Some(Request::SpeedOn)
    } else if path2_is(&segs, Mnemonic::Speed, Mnemonic::Off) && event {
        Some(Request::SpeedOff)
    } else if path1_is(&segs, Mnemonic::Speed) && !query {
        match parse_speed(param) {
            Some(v) => Some(Request::SpeedSet(v)),
            None => None,
        }
    } else {
        None
    }
}

} // verus!
