//! Format descriptors: owned, typed key/value property bags describing a
//! track's or codec's negotiated format.
//!
//! A descriptor maps string keys to typed values. A missing key or a type
//! mismatch yields `None`, never a failure. The view of a descriptor is a
//! mathematical map from key to value; every setter states exactly which
//! map the descriptor holds afterwards, and every getter states exactly
//! what it returns for every map.
//!
//! Floating-point entries are carried as their IEEE-754 bit patterns, so
//! that the verified core never computes on floats; converting a float to
//! and from its bits is the caller's (unverified) concern.

use vstd::prelude::*;
use vstd::string::StringExecFns;
use crate::samples::copy_bytes;
use crate::text::{contains_seq, str_contains};

verus! {

/// A typed value held by a `MediaFormat` under a string key.
#[derive(Debug)]
pub enum MediaValue {
    I32(i32),
    I64(i64),
    /// An IEEE-754 single-precision value, carried as its bit pattern.
    F32Bits(u32),
    /// An IEEE-754 double-precision value, carried as its bit pattern.
    F64Bits(u64),
    Str(String),
    Bytes(Vec<u8>),
}

/// The mathematical value of a `MediaValue`.
#[verifier::ext_equal]
pub enum MediaValueSpec {
    I32(i32),
    I64(i64),
    F32Bits(u32),
    F64Bits(u64),
    Str(Seq<char>),
    Bytes(Seq<u8>),
}

impl View for MediaValue {
    type V = MediaValueSpec;

    open spec fn view(&self) -> MediaValueSpec {
        match self {
            MediaValue::I32(v) => MediaValueSpec::I32(*v),
            MediaValue::I64(v) => MediaValueSpec::I64(*v),
            MediaValue::F32Bits(v) => MediaValueSpec::F32Bits(*v),
            MediaValue::F64Bits(v) => MediaValueSpec::F64Bits(*v),
            MediaValue::Str(s) => MediaValueSpec::Str(s@),
            MediaValue::Bytes(b) => MediaValueSpec::Bytes(b@),
        }
    }
}

/// The value the latest entry for key `k` holds, scanning from the end.
spec fn lookup(s: Seq<(String, MediaValue)>, k: Seq<char>) -> Option<MediaValueSpec>
    decreases s.len(),
{
    if s.len() == 0 {
        None
    } else if s.last().0@ == k {
        Some(s.last().1@)
    } else {
        lookup(s.drop_last(), k)
    }
}

/// A typed key/value property bag describing a negotiated format.
#[derive(Debug)]
pub struct MediaFormat {
    entries: Vec<(String, MediaValue)>,
}

impl View for MediaFormat {
    type V = Map<Seq<char>, MediaValueSpec>;

    closed spec fn view(&self) -> Map<Seq<char>, MediaValueSpec> {
        Map::new(
            |k: Seq<char>| lookup(self.entries@, k) is Some,
            |k: Seq<char>| lookup(self.entries@, k)->Some_0,
        )
    }
}

impl MediaFormat {
    /// The descriptor's entries in their stored order: each key once, at
    /// the place where it was first set, with its current value. This is
    /// the order the diagnostic dump walks.
    pub closed spec fn spec_entries(&self) -> Seq<(Seq<char>, MediaValueSpec)> {
        self.entries@.map_values(|e: (String, MediaValue)| (e.0@, e.1@))
    }
}

/// What a typed getter for 32-bit integers returns on map `m` at key `k`.
pub open spec fn spec_get_i32(m: Map<Seq<char>, MediaValueSpec>, k: Seq<char>) -> Option<i32> {
    if m.contains_key(k) {
        match m[k] {
            MediaValueSpec::I32(v) => Some(v),
            _ => None,
        }
    } else {
        None
    }
}

/// What a typed getter for 64-bit integers returns on map `m` at key `k`.
pub open spec fn spec_get_i64(m: Map<Seq<char>, MediaValueSpec>, k: Seq<char>) -> Option<i64> {
    if m.contains_key(k) {
        match m[k] {
            MediaValueSpec::I64(v) => Some(v),
            _ => None,
        }
    } else {
        None
    }
}

/// What the getter for single-precision bit patterns returns.
pub open spec fn spec_get_f32_bits(m: Map<Seq<char>, MediaValueSpec>, k: Seq<char>) -> Option<
    u32,
> {
    if m.contains_key(k) {
        match m[k] {
            MediaValueSpec::F32Bits(v) => Some(v),
            _ => None,
        }
    } else {
        None
    }
}

/// What the getter for double-precision bit patterns returns.
pub open spec fn spec_get_f64_bits(m: Map<Seq<char>, MediaValueSpec>, k: Seq<char>) -> Option<
    u64,
> {
    if m.contains_key(k) {
        match m[k] {
            MediaValueSpec::F64Bits(v) => Some(v),
            _ => None,
        }
    } else {
        None
    }
}

/// What the string getter returns on map `m` at key `k`.
pub open spec fn spec_get_string(m: Map<Seq<char>, MediaValueSpec>, k: Seq<char>) -> Option<
    Seq<char>,
> {
    if m.contains_key(k) {
        match m[k] {
            MediaValueSpec::Str(s) => Some(s),
            _ => None,
        }
    } else {
        None
    }
}

/// What the byte-buffer getter returns on map `m` at key `k`.
pub open spec fn spec_get_bytes(m: Map<Seq<char>, MediaValueSpec>, k: Seq<char>) -> Option<
    Seq<u8>,
> {
    if m.contains_key(k) {
        match m[k] {
            MediaValueSpec::Bytes(b) => Some(b),
            _ => None,
        }
    } else {
        None
    }
}

/// Whether map `m` names a mime type that contains `word`.
pub open spec fn spec_mime_contains(m: Map<Seq<char>, MediaValueSpec>, word: Seq<char>) -> bool {
    match spec_get_string(m, "mime"@) {
        Some(s) => contains_seq(s, word),
        None => false,
    }
}

impl MediaFormat {
    /// An empty format descriptor.
    pub fn empty() -> (r: MediaFormat)
        ensures
            r@ == Map::<Seq<char>, MediaValueSpec>::empty(),
    {
        let f = MediaFormat { entries: Vec::new() };
        proof {
            assert(f@ =~= Map::<Seq<char>, MediaValueSpec>::empty());
        }
        f
    }

    /// Creates an empty format descriptor.
    pub fn new() -> (r: Option<MediaFormat>)
        ensures
            r matches Some(f) && f@ == Map::<Seq<char>, MediaValueSpec>::empty(),
    {
        Some(MediaFormat::empty())
    }

    /// Stores an entry: replaces the latest entry for the key in place,
    /// or appends one when the key is new.
    fn set_value(&mut self, name: &str, value: MediaValue)
        ensures
            final(self)@ == old(self)@.insert(name@, value@),
            final(self).spec_entries().len() <= old(self).spec_entries().len() + 1,
    {
        let key = String::from_str(name);
        let ghost pre = self.entries@;
        let mut i: usize = self.entries.len();
        while i > 0
            invariant
                i <= self.entries.len(),
                key@ == name@,
                self.entries@ == pre,
                pre == old(self).entries@,
                forall|j: int| i <= j < pre.len() ==> (#[trigger] pre[j]).0@ != name@,
            decreases i,
        {
            i = i - 1;
            if self.entries[i].0 == key {
                let ghost p = (key, value);
                self.entries.set(i, (key, value));
                proof {
                    assert(self.entries@ == pre.update(i as int, p));
                    lemma_lookup_update(pre, i as int, p);
                    assert forall|k2: Seq<char>|
                        #[trigger] lookup(self.entries@, k2) == (if k2 == name@ {
                            Some(value@)
                        } else {
                            lookup(pre, k2)
                        }) by {
                        assert(lookup(pre.update(i as int, p), k2) == (if k2 == p.0@ {
                            Some(p.1@)
                        } else {
                            lookup(pre, k2)
                        }));
                    }
                    assert(self@ =~= old(self)@.insert(name@, value@));
                    assert(self.entries@.len() == pre.len());
                }
                return;
            }
        }
        self.entries.push((key, value));
        proof {
            assert(self.entries@.drop_last() =~= pre);
            assert forall|k2: Seq<char>|
                lookup(self.entries@, k2) == (if k2 == name@ {
                    Some(value@)
                } else {
                    lookup(pre, k2)
                }) by {
                assert(self.entries@.last().0@ == name@);
            }
            assert(self@ =~= old(self)@.insert(name@, value@));
        }
    }

    /// The latest entry for `name`, if any.
    fn get_value(&self, name: &str) -> (r: Option<&MediaValue>)
        ensures
            match r {
                Some(v) => self@.contains_key(name@) && self@[name@] == v@,
                None => !self@.contains_key(name@),
            },
    {
        let key = String::from_str(name);
        let mut i: usize = self.entries.len();
        proof {
            assert(self.entries@.take(i as int) =~= self.entries@);
        }
        while i > 0
            invariant
                i <= self.entries.len(),
                key@ == name@,
                lookup(self.entries@, name@) == lookup(self.entries@.take(i as int), name@),
            decreases i,
        {
            i = i - 1;
            proof {
                assert(self.entries@.take(i as int + 1).last() == self.entries@[i as int]);
                assert(self.entries@.take(i as int + 1).drop_last() =~= self.entries@.take(
                    i as int,
                ));
            }
            let entry = &self.entries[i];
            if entry.0 == key {
                return Some(&entry.1);
            }
        }
        proof {
            assert(self.entries@.take(0) =~= Seq::<(String, MediaValue)>::empty());
        }
        None
    }

    /// Sets a 32-bit integer value for `name`, replacing any earlier value.
    pub fn set_i32(&mut self, name: &str, value: i32) -> (r: bool)
        ensures
            r,
            final(self)@ == old(self)@.insert(name@, MediaValueSpec::I32(value)),
    {
        self.set_value(name, MediaValue::I32(value));
        true
    }

    /// The 32-bit integer stored for `name`: `None` on a missing key or a
    /// value of another type.
    pub fn get_i32(&self, name: &str) -> (r: Option<i32>)
        ensures
            r == spec_get_i32(self@, name@),
    {
        match self.get_value(name) {
            Some(v) => match v {
                MediaValue::I32(x) => Some(*x),
                _ => None,
            },
            None => None,
        }
    }

    /// Sets a 64-bit integer value for `name`, replacing any earlier value.
    pub fn set_i64(&mut self, name: &str, value: i64) -> (r: bool)
        ensures
            r,
            final(self)@ == old(self)@.insert(name@, MediaValueSpec::I64(value)),
    {
        self.set_value(name, MediaValue::I64(value));
        true
    }

    /// The 64-bit integer stored for `name`.
    pub fn get_i64(&self, name: &str) -> (r: Option<i64>)
        ensures
            r == spec_get_i64(self@, name@),
    {
        match self.get_value(name) {
            Some(v) => match v {
                MediaValue::I64(x) => Some(*x),
                _ => None,
            },
            None => None,
        }
    }

    /// Sets a single-precision value for `name`, given as its bit pattern.
    pub fn set_f32_bits(&mut self, name: &str, bits: u32) -> (r: bool)
        ensures
            r,
            final(self)@ == old(self)@.insert(name@, MediaValueSpec::F32Bits(bits)),
    {
        self.set_value(name, MediaValue::F32Bits(bits));
        true
    }

    /// The single-precision bit pattern stored for `name`.
    pub fn get_f32_bits(&self, name: &str) -> (r: Option<u32>)
        ensures
            r == spec_get_f32_bits(self@, name@),
    {
        match self.get_value(name) {
            Some(v) => match v {
                MediaValue::F32Bits(x) => Some(*x),
                _ => None,
            },
            None => None,
        }
    }

    /// Sets a double-precision value for `name`, given as its bit pattern.
    pub fn set_f64_bits(&mut self, name: &str, bits: u64) -> (r: bool)
        ensures
            r,
            final(self)@ == old(self)@.insert(name@, MediaValueSpec::F64Bits(bits)),
    {
        self.set_value(name, MediaValue::F64Bits(bits));
        true
    }

    /// The double-precision bit pattern stored for `name`.
    pub fn get_f64_bits(&self, name: &str) -> (r: Option<u64>)
        ensures
            r == spec_get_f64_bits(self@, name@),
    {
        match self.get_value(name) {
            Some(v) => match v {
                MediaValue::F64Bits(x) => Some(*x),
                _ => None,
            },
            None => None,
        }
    }

    /// Sets a string value for `name`, replacing any earlier value.
    pub fn set_string(&mut self, name: &str, value: &str) -> (r: bool)
        ensures
            r,
            final(self)@ == old(self)@.insert(name@, MediaValueSpec::Str(value@)),
    {
        self.set_value(name, MediaValue::Str(String::from_str(value)));
        true
    }

    /// The string stored for `name`, as an owned copy.
    pub fn get_string(&self, name: &str) -> (r: Option<String>)
        ensures
            match r {
                Some(s) => spec_get_string(self@, name@) == Some(s@),
                None => spec_get_string(self@, name@) is None,
            },
    {
        match self.get_value(name) {
            Some(v) => match v {
                MediaValue::Str(s) => Some(s.clone()),
                _ => None,
            },
            None => None,
        }
    }

    /// Sets a byte-buffer value for `name`, replacing any earlier value.
    pub fn set_bytes(&mut self, name: &str, value: Vec<u8>) -> (r: bool)
        ensures
            r,
            final(self)@ == old(self)@.insert(name@, MediaValueSpec::Bytes(value@)),
    {
        self.set_value(name, MediaValue::Bytes(value));
        true
    }

    /// The byte buffer stored for `name`, as an owned copy.
    pub fn get_bytes(&self, name: &str) -> (r: Option<Vec<u8>>)
        ensures
            match r {
                Some(b) => spec_get_bytes(self@, name@) == Some(b@),
                None => spec_get_bytes(self@, name@) is None,
            },
    {
        match self.get_value(name) {
            Some(v) => match v {
                MediaValue::Bytes(b) => Some(copy_bytes(b)),
                _ => None,
            },
            None => None,
        }
    }

    /// Removes every entry.
    pub fn clear(&mut self)
        ensures
            final(self)@ == Map::<Seq<char>, MediaValueSpec>::empty(),
    {
        self.entries.clear();
        proof {
            assert(self@ =~= Map::<Seq<char>, MediaValueSpec>::empty());
        }
    }

    /// Whether the mime type names an audio stream; `false` when the mime
    /// key is absent or holds a non-string value.
    pub fn is_audio(&self) -> (r: bool)
        ensures
            r == spec_mime_contains(self@, "audio"@),
    {
        match self.get_string("mime") {
            Some(m) => str_contains(m.as_str(), "audio"),
            None => false,
        }
    }

    /// Whether the mime type names a video stream; `false` when the mime
    /// key is absent or holds a non-string value.
    pub fn is_video(&self) -> (r: bool)
        ensures
            r == spec_mime_contains(self@, "video"@),
    {
        match self.get_string("mime") {
            Some(m) => str_contains(m.as_str(), "video"),
            None => false,
        }
    }
}

impl Clone for MediaFormat {
    /// An owned copy holding the same map.
    fn clone(&self) -> (r: Self)
        ensures
            r@ == self@,
    {
        let mut entries: Vec<(String, MediaValue)> = Vec::new();
        let mut i: usize = 0;
        while i < self.entries.len()
            invariant
                i <= self.entries.len(),
                entries@.len() == i,
                forall|j: int|
                    0 <= j < i ==> (#[trigger] entries@[j]).0@ == self.entries@[j].0@
                        && entries@[j].1@ == self.entries@[j].1@,
            decreases self.entries.len() - i,
        {
            let entry = &self.entries[i];
            let key = entry.0.clone();
            let value = clone_value(&entry.1);
            entries.push((key, value));
            i = i + 1;
        }
        let r = MediaFormat { entries };
        proof {
            lemma_lookup_congruent(r.entries@, self.entries@);
            assert(r@ =~= self@);
        }
        r
    }
}

/// An owned copy of a value.
fn clone_value(v: &MediaValue) -> (r: MediaValue)
    ensures
        r@ == v@,
{
    match v {
        MediaValue::I32(x) => MediaValue::I32(*x),
        MediaValue::I64(x) => MediaValue::I64(*x),
        MediaValue::F32Bits(x) => MediaValue::F32Bits(*x),
        MediaValue::F64Bits(x) => MediaValue::F64Bits(*x),
        MediaValue::Str(s) => MediaValue::Str(s.clone()),
        MediaValue::Bytes(b) => MediaValue::Bytes(copy_bytes(b)),
    }
}

/// Replacing the latest entry for a key in place rebinds that key and
/// leaves every other key's lookup alone.
proof fn lemma_lookup_update(s: Seq<(String, MediaValue)>, idx: int, p: (String, MediaValue))
    requires
        0 <= idx < s.len(),
        p.0@ == s[idx].0@,
        forall|j: int| idx < j < s.len() ==> (#[trigger] s[j]).0@ != s[idx].0@,
    ensures
        forall|k2: Seq<char>|
            #[trigger] lookup(s.update(idx, p), k2) == (if k2 == p.0@ {
                Some(p.1@)
            } else {
                lookup(s, k2)
            }),
    decreases s.len(),
{
    let su = s.update(idx, p);
    if idx == s.len() - 1 {
        assert(su.drop_last() =~= s.drop_last());
        assert(su.last() == p);
    } else {
        assert(su.drop_last() =~= s.drop_last().update(idx, p));
        assert(su.last() == s.last());
        assert(s.last().0@ != s[idx].0@);
        lemma_lookup_update(s.drop_last(), idx, p);
        assert forall|k2: Seq<char>|
            #[trigger] lookup(su, k2) == (if k2 == p.0@ {
                Some(p.1@)
            } else {
                lookup(s, k2)
            }) by {
            assert(lookup(su.drop_last(), k2) == (if k2 == p.0@ {
                Some(p.1@)
            } else {
                lookup(s.drop_last(), k2)
            }));
        }
    }
}

/// Entry sequences whose keys and values agree pairwise resolve every
/// lookup alike.
proof fn lemma_lookup_congruent(a: Seq<(String, MediaValue)>, b: Seq<(String, MediaValue)>)
    requires
        a.len() == b.len(),
        forall|j: int|
            0 <= j < a.len() ==> (#[trigger] a[j]).0@ == b[j].0@ && a[j].1@ == b[j].1@,
    ensures
        forall|k: Seq<char>| #[trigger] lookup(a, k) == lookup(b, k),
    decreases a.len(),
{
    if a.len() > 0 {
        lemma_lookup_congruent(a.drop_last(), b.drop_last());
        assert forall|k: Seq<char>| #[trigger] lookup(a, k) == lookup(b, k) by {
            assert(a.last().0@ == b.last().0@);
            assert(a.last().1@ == b.last().1@);
            assert(lookup(a.drop_last(), k) == lookup(b.drop_last(), k));
        }
    }
}

/// The character of one decimal digit.
pub open spec fn spec_digit_char(d: nat) -> char {
    if d == 0 {
        '0'
    } else if d == 1 {
        '1'
    } else if d == 2 {
        '2'
    } else if d == 3 {
        '3'
    } else if d == 4 {
        '4'
    } else if d == 5 {
        '5'
    } else if d == 6 {
        '6'
    } else if d == 7 {
        '7'
    } else if d == 8 {
        '8'
    } else {
        '9'
    }
}

/// The decimal digits of a number, most significant first.
pub open spec fn spec_dec_digits(n: nat) -> Seq<char>
    decreases n,
{
    if n < 10 {
        seq![spec_digit_char(n)]
    } else {
        spec_dec_digits(n / 10).push(spec_digit_char(n % 10))
    }
}

/// The decimal rendering of a signed number.
pub open spec fn spec_dec_int(v: int) -> Seq<char> {
    if v < 0 {
        seq!['-'] + spec_dec_digits((-v) as nat)
    } else {
        spec_dec_digits(v as nat)
    }
}

/// The one-character string of a decimal digit.
fn digit_str(d: u64) -> (r: &'static str)
    requires
        d < 10,
    ensures
        r@ == seq![spec_digit_char(d as nat)],
{
    if d == 0 {
        proof {
            reveal_strlit("0");
            assert("0"@ =~= seq![spec_digit_char(0)]);
        }
        "0"
    } else if d == 1 {
        proof {
            reveal_strlit("1");
            assert("1"@ =~= seq![spec_digit_char(1)]);
        }
        "1"
    } else if d == 2 {
        proof {
            reveal_strlit("2");
            assert("2"@ =~= seq![spec_digit_char(2)]);
        }
        "2"
    } else if d == 3 {
        proof {
            reveal_strlit("3");
            assert("3"@ =~= seq![spec_digit_char(3)]);
        }
        "3"
    } else if d == 4 {
        proof {
            reveal_strlit("4");
            assert("4"@ =~= seq![spec_digit_char(4)]);
        }
        "4"
    } else if d == 5 {
        proof {
            reveal_strlit("5");
            assert("5"@ =~= seq![spec_digit_char(5)]);
        }
        "5"
    } else if d == 6 {
        proof {
            reveal_strlit("6");
            assert("6"@ =~= seq![spec_digit_char(6)]);
        }
        "6"
    } else if d == 7 {
        proof {
            reveal_strlit("7");
            assert("7"@ =~= seq![spec_digit_char(7)]);
        }
        "7"
    } else if d == 8 {
        proof {
            reveal_strlit("8");
            assert("8"@ =~= seq![spec_digit_char(8)]);
        }
        "8"
    } else {
        proof {
            reveal_strlit("9");
            assert("9"@ =~= seq![spec_digit_char(9)]);
        }
        "9"
    }
}

/// The decimal rendering of an unsigned number.
fn u64_dec(v: u64) -> (r: String)
    ensures
        r@ == spec_dec_digits(v as nat),
    decreases v,
{
    if v < 10 {
        String::from_str(digit_str(v))
    } else {
        let mut s = u64_dec(v / 10);
        s.append(digit_str(v % 10));
        proof {
            assert(spec_dec_digits((v / 10) as nat) + seq![spec_digit_char((v % 10) as nat)]
                =~= spec_dec_digits(v as nat));
        }
        s
    }
}

/// The decimal rendering of a signed number.
fn i64_dec(v: i64) -> (r: String)
    ensures
        r@ == spec_dec_int(v as int),
{
    if v >= 0 {
        u64_dec(v as u64)
    } else {
        let magnitude: u64 = ((-(v + 1)) as u64) + 1;
        proof {
            assert(magnitude as int == -(v as int));
        }
        let mut s = String::from_str("-");
        let digits = u64_dec(magnitude);
        s.append(digits.as_str());
        proof {
            reveal_strlit("-");
            assert("-"@ + spec_dec_digits(magnitude as nat) =~= spec_dec_int(v as int));
        }
        s
    }
}

/// The rendering of one value in the diagnostic dump.
pub open spec fn spec_render_value(v: MediaValueSpec) -> Seq<char> {
    match v {
        MediaValueSpec::I32(x) => "i32 "@ + spec_dec_int(x as int),
        MediaValueSpec::I64(x) => "i64 "@ + spec_dec_int(x as int),
        MediaValueSpec::F32Bits(x) => "f32-bits "@ + spec_dec_digits(x as nat),
        MediaValueSpec::F64Bits(x) => "f64-bits "@ + spec_dec_digits(x as nat),
        MediaValueSpec::Str(s) => "str "@ + s,
        MediaValueSpec::Bytes(b) => "bytes["@ + spec_dec_digits(b.len()) + "]"@,
    }
}

/// One line of the diagnostic dump: the key, its value, a line break.
pub open spec fn spec_display_line(e: (Seq<char>, MediaValueSpec)) -> Seq<char> {
    e.0 + " = "@ + spec_render_value(e.1) + "\n"@
}

/// The diagnostic dump of an entry sequence: one line per entry, in
/// stored order.
pub open spec fn spec_display(entries: Seq<(Seq<char>, MediaValueSpec)>) -> Seq<char>
    decreases entries.len(),
{
    if entries.len() == 0 {
        Seq::empty()
    } else {
        spec_display(entries.drop_last()) + spec_display_line(entries.last())
    }
}

/// The rendering of one value.
fn render_value(v: &MediaValue) -> (r: String)
    ensures
        r@ == spec_render_value(v@),
{
    match v {
        MediaValue::I32(x) => {
            let mut s = String::from_str("i32 ");
            let digits = i64_dec(*x as i64);
            s.append(digits.as_str());
            s
        },
        MediaValue::I64(x) => {
            let mut s = String::from_str("i64 ");
            let digits = i64_dec(*x);
            s.append(digits.as_str());
            s
        },
        MediaValue::F32Bits(x) => {
            let mut s = String::from_str("f32-bits ");
            let digits = u64_dec(*x as u64);
            s.append(digits.as_str());
            s
        },
        MediaValue::F64Bits(x) => {
            let mut s = String::from_str("f64-bits ");
            let digits = u64_dec(*x);
            s.append(digits.as_str());
            s
        },
        MediaValue::Str(st) => {
            let mut s = String::from_str("str ");
            s.append(st.as_str());
            s
        },
        MediaValue::Bytes(b) => {
            let mut s = String::from_str("bytes[");
            let digits = u64_dec(b.len() as u64);
            s.append(digits.as_str());
            s.append("]");
            s
        },
    }
}

impl MediaFormat {
    /// A deterministic human-readable dump of all key/value pairs, one
    /// line per key in stored order. Diagnostics only — no wire contract
    /// rests on its shape.
    pub fn to_display_string(&self) -> (r: String)
        ensures
            r@ == spec_display(self.spec_entries()),
    {
        let mut s = String::new();
        let mut i: usize = 0;
        proof {
            assert(self.spec_entries().take(0) =~= Seq::<(Seq<char>, MediaValueSpec)>::empty());
        }
        while i < self.entries.len()
            invariant
                i <= self.entries.len(),
                s@ == spec_display(self.spec_entries().take(i as int)),
            decreases self.entries.len() - i,
        {
            let entry = &self.entries[i];
            s.append(entry.0.as_str());
            s.append(" = ");
            let rendered = render_value(&entry.1);
            s.append(rendered.as_str());
            s.append("\n");
            proof {
                assert(self.spec_entries().take(i as int + 1).drop_last() =~= self.spec_entries()
                    .take(i as int));
                assert(self.spec_entries().take(i as int + 1).last() == self.spec_entries()[
                    i as int]);
                assert(self.spec_entries()[i as int] == (
                    self.entries@[i as int].0@,
                    self.entries@[i as int].1@,
                ));
                assert(s@ =~= spec_display(self.spec_entries().take(i as int + 1)));
            }
            i = i + 1;
        }
        proof {
            assert(self.spec_entries().take(self.entries@.len() as int) =~= self.spec_entries());
        }
        s
    }
}

/// Setting a key and immediately getting it back returns the value that
/// was set: the round-trip law for 32-bit integer entries.
pub proof fn lemma_roundtrip_i32(m: Map<Seq<char>, MediaValueSpec>, k: Seq<char>, v: i32)
    ensures
        spec_get_i32(m.insert(k, MediaValueSpec::I32(v)), k) == Some(v),
{
}

/// The round-trip law for 64-bit integer entries.
pub proof fn lemma_roundtrip_i64(m: Map<Seq<char>, MediaValueSpec>, k: Seq<char>, v: i64)
    ensures
        spec_get_i64(m.insert(k, MediaValueSpec::I64(v)), k) == Some(v),
{
}

/// The round-trip law for single-precision entries (as bit patterns).
pub proof fn lemma_roundtrip_f32_bits(m: Map<Seq<char>, MediaValueSpec>, k: Seq<char>, v: u32)
    ensures
        spec_get_f32_bits(m.insert(k, MediaValueSpec::F32Bits(v)), k) == Some(v),
{
}

/// The round-trip law for double-precision entries (as bit patterns).
pub proof fn lemma_roundtrip_f64_bits(m: Map<Seq<char>, MediaValueSpec>, k: Seq<char>, v: u64)
    ensures
        spec_get_f64_bits(m.insert(k, MediaValueSpec::F64Bits(v)), k) == Some(v),
{
}

/// The round-trip law for string entries.
pub proof fn lemma_roundtrip_string(m: Map<Seq<char>, MediaValueSpec>, k: Seq<char>, v: Seq<char>)
    ensures
        spec_get_string(m.insert(k, MediaValueSpec::Str(v)), k) == Some(v),
{
}

/// The round-trip law for byte-buffer entries.
pub proof fn lemma_roundtrip_bytes(m: Map<Seq<char>, MediaValueSpec>, k: Seq<char>, v: Seq<u8>)
    ensures
        spec_get_bytes(m.insert(k, MediaValueSpec::Bytes(v)), k) == Some(v),
{
}

} // verus!
