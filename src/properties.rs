//! Message properties: an ordered list of key/value pairs kept as one percent-encoded buffer of
//! the form `k1=v1&k2=v2`, with lookup by key and ordered iteration.
use vstd::prelude::*;
use vstd::string::*;
use crate::buffer::{byte_len, vec_capacity};
use crate::encoding::{decode_component, decode_text, encode_component, encode_text, lemma_text_round_trip, lemma_url_encode_ascii, ascii_chars};
use crate::return_codes::AzReturnCode;
use crate::text::to_chars;
use vstd::utf8::encode_utf8;

verus! {

/// `s` cut at every `sep`; text without `sep` gives one piece.
pub open spec fn split(s: Seq<char>, sep: char) -> Seq<Seq<char>>
    decreases s.len(),
{
    if s.len() == 0 {
        seq![seq![]]
    } else {
        let r = split(s.drop_last(), sep);
        if s.last() == sep {
            r.push(seq![])
        } else {
            r.update(r.len() - 1, r.last().push(s.last()))
        }
    }
}

/// The encoded pairs that a buffer holds: none in an empty buffer, else the pieces between `&`.
pub open spec fn segments(s: Seq<char>) -> Seq<Seq<char>> {
    if s.len() == 0 {
        seq![]
    } else {
        split(s, '&')
    }
}

pub open spec fn first_equals(s: Seq<char>, i: int) -> bool {
    0 <= i < s.len() && s[i] == '=' && forall|j: int| 0 <= j < i ==> s[j] != '='
}

/// An encoded pair cut at its first `=` into key and value.
pub open spec fn split_pair(s: Seq<char>) -> Option<(Seq<char>, Seq<char>)> {
    if exists|i: int| first_equals(s, i) {
        let i = choose|i: int| first_equals(s, i);
        Some((s.take(i), s.skip(i + 1)))
    } else {
        None
    }
}

/// An encoded pair, decoded; `None` where it has no `=` or a part does not decode.
pub open spec fn decode_pair(s: Seq<char>) -> Option<(Seq<char>, Seq<char>)> {
    match split_pair(s) {
        Some(p) => match (decode_text(p.0), decode_text(p.1)) {
            (Some(k), Some(v)) => Some((k, v)),
            _ => None,
        },
        None => None,
    }
}

/// All the encoded pairs, decoded in order; `None` where one does not decode.
pub open spec fn decode_pairs(segs: Seq<Seq<char>>) -> Option<Seq<(Seq<char>, Seq<char>)>>
    decreases segs.len(),
{
    if segs.len() == 0 {
        Some(seq![])
    } else {
        match (decode_pairs(segs.drop_last()), decode_pair(segs.last())) {
            (Some(ps), Some(p)) => Some(ps.push(p)),
            _ => None,
        }
    }
}

/// What one encoded pair gives a lookup of `k`: its decoded value when its key decodes to `k`.
pub open spec fn find_in_pair(s: Seq<char>, k: Seq<char>) -> Result<Seq<char>, AzReturnCode> {
    match split_pair(s) {
        Some(p) => if decode_text(p.0) == Some(k) {
            match decode_text(p.1) {
                Some(v) => Ok(v),
                None => Err(AzReturnCode::AzResultCoreErrorUnexpectedChar),
            }
        } else {
            Err(AzReturnCode::AzResultCoreErrorItemNotFound)
        },
        None => Err(AzReturnCode::AzResultCoreErrorItemNotFound),
    }
}

/// A lookup of `k`: decided by the first pair whose key decodes to `k`.
pub open spec fn find_in(segs: Seq<Seq<char>>, k: Seq<char>) -> Result<Seq<char>, AzReturnCode>
    decreases segs.len(),
{
    if segs.len() == 0 {
        Err(AzReturnCode::AzResultCoreErrorItemNotFound)
    } else {
        let prev = find_in(segs.drop_last(), k);
        if prev == Err::<Seq<char>, AzReturnCode>(AzReturnCode::AzResultCoreErrorItemNotFound) {
            find_in_pair(segs.last(), k)
        } else {
            prev
        }
    }
}

/// One pair in encoded form: `key=value`.
pub open spec fn encode_pair(k: Seq<char>, v: Seq<char>) -> Seq<char> {
    encode_text(k) + seq!['='] + encode_text(v)
}

/// A buffer with one more pair at its end, after a `&` unless it was empty.
pub open spec fn append_encoded(buf: Seq<char>, k: Seq<char>, v: Seq<char>) -> Seq<char> {
    if buf.len() == 0 {
        encode_pair(k, v)
    } else {
        buf + seq!['&'] + encode_pair(k, v)
    }
}

/// The buffer that appending `pairs` in order to an empty one gives.
pub open spec fn encode_all(pairs: Seq<(Seq<char>, Seq<char>)>) -> Seq<char>
    decreases pairs.len(),
{
    if pairs.len() == 0 {
        seq![]
    } else {
        append_encoded(encode_all(pairs.drop_last()), pairs.last().0, pairs.last().1)
    }
}

pub open spec fn text_views(v: Seq<String>) -> Seq<Seq<char>> {
    v.map_values(|x: String| x@)
}

pub open spec fn pair_views(v: Seq<(String, String)>) -> Seq<(Seq<char>, Seq<char>)> {
    v.map_values(|p: (String, String)| (p.0@, p.1@))
}

pub open spec fn text_result(r: Result<String, AzReturnCode>) -> Result<Seq<char>, AzReturnCode> {
    match r {
        Ok(s) => Ok(s@),
        Err(e) => Err(e),
    }
}

pub proof fn lemma_split_len(s: Seq<char>, sep: char)
    ensures
        split(s, sep).len() >= 1,
    decreases s.len(),
{
    if s.len() > 0 {
        lemma_split_len(s.drop_last(), sep);
    }
}

pub proof fn lemma_split_plain(s: Seq<char>, sep: char)
    requires
        forall|i: int| 0 <= i < s.len() ==> s[i] != sep,
    ensures
        split(s, sep) == seq![s],
    decreases s.len(),
{
    if s.len() > 0 {
        lemma_split_plain(s.drop_last(), sep);
        assert(s.last() != sep);
        let r = split(s.drop_last(), sep);
        assert(r == seq![s.drop_last()]);
        assert(s.drop_last().push(s.last()) =~= s);
        assert(r.update(r.len() - 1, r.last().push(s.last())) =~= seq![s]);
    } else {
        assert(s =~= Seq::<char>::empty());
        assert(split(s, sep) =~= seq![s]);
    }
}

/// Cutting at a separator splits the pieces of both sides.
pub proof fn lemma_split_concat(x: Seq<char>, y: Seq<char>, sep: char)
    ensures
        split(x + seq![sep] + y, sep) == split(x, sep) + split(y, sep),
    decreases y.len(),
{
    let s = x + seq![sep] + y;
    lemma_split_len(x, sep);
    if y.len() == 0 {
        assert(s.drop_last() =~= x);
        assert(split(x, sep) + seq![seq![]] =~= split(x, sep).push(seq![]));
    } else {
        lemma_split_concat(x, y.drop_last(), sep);
        lemma_split_len(y.drop_last(), sep);
        assert(s.drop_last() =~= x + seq![sep] + y.drop_last());
        assert(s.last() == y.last());
        assert(split(s, sep) =~= split(x, sep) + split(y, sep));
    }
}

/// Encoded text holds neither `&` nor `=`.
pub proof fn lemma_encode_text_plain(s: Seq<char>)
    ensures
        forall|i: int| 0 <= i < encode_text(s).len() ==> #[trigger] encode_text(s)[i] != '&'
            && encode_text(s)[i] != '=',
{
    let b = crate::encoding::url_encode(encode_utf8(s));
    lemma_url_encode_ascii(encode_utf8(s));
    assert forall|i: int| 0 <= i < encode_text(s).len() implies #[trigger] encode_text(s)[i] != '&'
        && encode_text(s)[i] != '=' by {
        assert(encode_text(s)[i] == b[i] as char);
        assert(b[i] != 0x26u8 && b[i] != 0x3du8);
    }
}

pub proof fn lemma_split_pair_at(s: Seq<char>, i: int)
    requires
        first_equals(s, i),
    ensures
        split_pair(s) == Some((s.take(i), s.skip(i + 1))),
{
    assert forall|j: int| first_equals(s, j) implies j == i by {
        if j < i {
            assert(s[j] != '=');
        } else if j > i {
            assert(s[i] != '=');
        }
    }
}

pub proof fn lemma_decode_encoded_pair(k: Seq<char>, v: Seq<char>)
    ensures
        split_pair(encode_pair(k, v)) == Some((encode_text(k), encode_text(v))),
        decode_pair(encode_pair(k, v)) == Some((k, v)),
        find_in_pair(encode_pair(k, v), k) == Ok::<Seq<char>, AzReturnCode>(v),
        forall|i: int| 0 <= i < encode_pair(k, v).len() ==> #[trigger] encode_pair(k, v)[i] != '&',
{
    let s = encode_pair(k, v);
    let n = encode_text(k).len() as int;
    lemma_encode_text_plain(k);
    lemma_encode_text_plain(v);
    assert(first_equals(s, n));
    lemma_split_pair_at(s, n);
    assert(s.take(n) =~= encode_text(k));
    assert(s.skip(n + 1) =~= encode_text(v));
    lemma_text_round_trip(k);
    lemma_text_round_trip(v);
    assert forall|i: int| 0 <= i < s.len() implies #[trigger] s[i] != '&' by {
        if i < n {
            assert(s[i] == encode_text(k)[i]);
        } else if i > n {
            assert(s[i] == encode_text(v)[i - n - 1]);
        }
    }
}

/// Appending a pair adds exactly one encoded pair at the end.
pub proof fn lemma_segments_append(buf: Seq<char>, k: Seq<char>, v: Seq<char>)
    ensures
        segments(append_encoded(buf, k, v)) == segments(buf).push(encode_pair(k, v)),
{
    lemma_decode_encoded_pair(k, v);
    lemma_split_plain(encode_pair(k, v), '&');
    if buf.len() > 0 {
        lemma_split_concat(buf, encode_pair(k, v), '&');
    }
    assert(segments(append_encoded(buf, k, v)) =~= segments(buf).push(encode_pair(k, v)));
}

/// Round trip: the pairs appended in order to an empty buffer are exactly what iterating it
/// yields, in the same order.
pub proof fn lemma_iteration_round_trip(pairs: Seq<(Seq<char>, Seq<char>)>)
    ensures
        decode_pairs(segments(encode_all(pairs))) == Some(pairs),
        segments(encode_all(pairs)).len() == pairs.len(),
    decreases pairs.len(),
{
    if pairs.len() > 0 {
        let prev = pairs.drop_last();
        lemma_iteration_round_trip(prev);
        lemma_segments_append(encode_all(prev), pairs.last().0, pairs.last().1);
        lemma_decode_encoded_pair(pairs.last().0, pairs.last().1);
        let segs = segments(encode_all(pairs));
        assert(segs.drop_last() =~= segments(encode_all(prev)));
        assert(prev.push(pairs.last()) =~= pairs);
    }
}

/// A lookup that one pair decided stays decided however many pairs follow.
pub proof fn lemma_find_prefix(segs: Seq<Seq<char>>, n: int, k: Seq<char>)
    requires
        0 <= n <= segs.len(),
        find_in(segs.take(n), k) != Err::<Seq<char>, AzReturnCode>(
            AzReturnCode::AzResultCoreErrorItemNotFound,
        ),
    ensures
        find_in(segs, k) == find_in(segs.take(n), k),
    decreases segs.len() - n,
{
    if n < segs.len() {
        assert(segs.take(n + 1).drop_last() =~= segs.take(n));
        lemma_find_prefix(segs, n + 1, k);
    } else {
        assert(segs.take(n) =~= segs);
    }
}

/// After appending `(k, v)` to a buffer in which `k` is absent, a lookup of `k` gives `v`.
pub proof fn lemma_find_after_append(buf: Seq<char>, k: Seq<char>, v: Seq<char>)
    requires
        find_in(segments(buf), k) == Err::<Seq<char>, AzReturnCode>(
            AzReturnCode::AzResultCoreErrorItemNotFound,
        ),
    ensures
        find_in(segments(append_encoded(buf, k, v)), k) == Ok::<Seq<char>, AzReturnCode>(v),
{
    lemma_segments_append(buf, k, v);
    lemma_decode_encoded_pair(k, v);
    let segs = segments(append_encoded(buf, k, v));
    assert(segs.drop_last() =~= segments(buf));
}

/// `s` cut at every `&`, with no pieces for empty text.
pub fn split_segments(s: &str) -> (r: Vec<String>)
    ensures
        text_views(r@) == segments(s@),
{
    let chars = to_chars(s);
    let n = chars.len();
    let mut done: Vec<String> = Vec::new();
    if n == 0 {
        assert(text_views(done@) =~= segments(s@));
        return done;
    }
    let mut start: usize = 0;
    let mut i: usize = 0;
    assert(s@.take(0) =~= Seq::<char>::empty());
    assert(text_views(done@).push(s@.subrange(0, 0)) =~= seq![Seq::<char>::empty()]);
    while i < n
        invariant
            n == s@.len(),
            chars@ == s@,
            start <= i <= n,
            split(s@.take(i as int), '&') == text_views(done@).push(s@.subrange(start as int, i as int)),
        decreases n - i,
    {
        let ghost t = s@.take(i + 1);
        let ghost r = split(s@.take(i as int), '&');
        let ghost views_before = text_views(done@);
        let ghost piece_before = s@.subrange(start as int, i as int);
        assert(t.drop_last() =~= s@.take(i as int));
        assert(t.last() == chars@[i as int]);
        assert(r == views_before.push(piece_before));
        if chars[i] == '&' {
            let piece = s.substring_char(start, i).to_string();
            done.push(piece);
            start = i + 1;
            assert(split(t, '&') == r.push(seq![]));
            assert(text_views(done@) =~= views_before.push(piece_before));
            assert(s@.subrange(start as int, i + 1) =~= Seq::<char>::empty());
            assert(split(t, '&') =~= text_views(done@).push(s@.subrange(start as int, i + 1)));
        } else {
            assert(split(t, '&') == r.update(r.len() - 1, r.last().push(t.last())));
            assert(piece_before.push(t.last()) =~= s@.subrange(start as int, i + 1));
            assert(split(t, '&') =~= text_views(done@).push(s@.subrange(start as int, i + 1)));
        }
        i = i + 1;
    }
    let last = s.substring_char(start, n).to_string();
    done.push(last);
    assert(s@.take(n as int) =~= s@);
    assert(text_views(done@) =~= segments(s@));
    done
}

/// The first `=` in `s`, if any.
fn find_equals(s: &Vec<char>) -> (r: Option<usize>)
    ensures
        r matches Some(i) ==> first_equals(s@, i as int),
        r is None ==> forall|i: int| !first_equals(s@, i),
{
    let mut i: usize = 0;
    while i < s.len()
        invariant
            i <= s@.len(),
            forall|j: int| 0 <= j < i ==> s@[j] != '=',
        decreases s@.len() - i,
    {
        if s[i] == '=' {
            return Some(i);
        }
        i = i + 1;
    }
    None
}

/// An encoded pair cut at its first `=`.
fn split_pair_exec(seg: &str) -> (r: Option<(String, String)>)
    ensures
        r matches Some(p) ==> split_pair(seg@) == Some((p.0@, p.1@)),
        r is None ==> split_pair(seg@) is None,
{
    let chars = to_chars(seg);
    match find_equals(&chars) {
        Some(i) => {
            proof {
                lemma_split_pair_at(seg@, i as int);
            }
            let n = chars.len();
            assert(i < n);
            let k = seg.substring_char(0, i).to_string();
            let v = seg.substring_char(i + 1, n).to_string();
            assert(seg@.subrange(0, i as int) =~= seg@.take(i as int));
            assert(seg@.subrange(i + 1, seg@.len() as int) =~= seg@.skip(i + 1));
            Some((k, v))
        },
        None => None,
    }
}

/// An encoded pair, decoded.
fn decode_pair_exec(seg: &str) -> (r: Option<(String, String)>)
    ensures
        r matches Some(p) ==> decode_pair(seg@) == Some((p.0@, p.1@)),
        r is None ==> decode_pair(seg@) is None,
{
    match split_pair_exec(seg) {
        Some((ek, ev)) => match (decode_component(ek.as_str()), decode_component(ev.as_str())) {
            (Some(k), Some(v)) => Some((k, v)),
            _ => None,
        },
        None => None,
    }
}

/// An ordered set of message properties over one encoded buffer of bounded capacity.
pub struct MessageProperties {
    encoded: String,
    capacity: usize,
    current_property_index: usize,
}

impl MessageProperties {
    /// The encoded buffer.
    pub closed spec fn spec_encoded(&self) -> Seq<char> {
        self.encoded@
    }

    /// The number of bytes the buffer may hold.
    pub closed spec fn spec_capacity(&self) -> nat {
        self.capacity as nat
    }

    /// How many pairs iteration has handed out.
    pub closed spec fn spec_cursor(&self) -> nat {
        self.current_property_index as nat
    }

    /// The encoded pairs that iteration has still to hand out.
    pub open spec fn remaining(&self) -> Seq<Seq<char>> {
        let segs = segments(self.spec_encoded());
        if self.spec_cursor() < segs.len() {
            segs.subrange(self.spec_cursor() as int, segs.len() as int)
        } else {
            seq![]
        }
    }

    /// The buffer fits its capacity and iteration has not run past its end.
    pub open spec fn wf(&self) -> bool {
        byte_len(self.spec_encoded()) <= self.spec_capacity() && self.spec_cursor() <= segments(
            self.spec_encoded(),
        ).len()
    }

    /// An empty set over `buffer`, whose allocated capacity bounds how many encoded bytes it can
    /// hold.
    pub fn new(buffer: Vec<u8>) -> (r: Result<MessageProperties, AzReturnCode>)
        ensures
            r is Ok,
            r->Ok_0.spec_encoded() == Seq::<char>::empty(),
            r->Ok_0.spec_cursor() == 0,
            r->Ok_0.wf(),
    {
        let capacity = vec_capacity(&buffer);
        Ok(MessageProperties::with_capacity(capacity))
    }

    /// An empty set that can hold `capacity` encoded bytes.
    pub fn with_capacity(capacity: usize) -> (r: MessageProperties)
        ensures
            r.spec_encoded() == Seq::<char>::empty(),
            r.spec_capacity() == capacity,
            r.spec_cursor() == 0,
            r.wf(),
    {
        assert(encode_utf8(Seq::<char>::empty()) =~= Seq::<u8>::empty());
        MessageProperties { encoded: String::new(), capacity, current_property_index: 0 }
    }

    /// An empty set that can hold nothing.
    pub fn new_empty() -> (r: MessageProperties)
        ensures
            r.spec_encoded() == Seq::<char>::empty(),
            r.spec_capacity() == 0,
            r.spec_cursor() == 0,
            r.wf(),
    {
        assert(encode_utf8(Seq::<char>::empty()) =~= Seq::<u8>::empty());
        MessageProperties { encoded: String::new(), capacity: 0, current_property_index: 0 }
    }

    /// A set over an already encoded buffer, such as the tail of a received topic; it is full.
    pub fn from_encoded(text: &str) -> (r: MessageProperties)
        ensures
            r.spec_encoded() == text@,
            r.spec_capacity() == byte_len(text@),
            r.spec_cursor() == 0,
            r.wf(),
    {
        let capacity = text.as_bytes().len();
        MessageProperties { encoded: text.to_string(), capacity, current_property_index: 0 }
    }

    /// The encoded buffer, as text.
    pub fn as_str(&self) -> (r: &str)
        ensures
            r@ == self.spec_encoded(),
    {
        self.encoded.as_str()
    }

    /// Appends the pair `(k, v)`, percent-encoded. An empty key is refused with
    /// `AzResultCoreErrorArg`; a pair that would take the buffer past its capacity with
    /// `AzResultCoreErrorNotEnoughSpace`. On error the set is unchanged.
    pub fn append(&mut self, k: &str, v: &str) -> (r: Result<&mut MessageProperties, AzReturnCode>)
        ensures
            k@.len() == 0 ==> r is Err && r->Err_0 == AzReturnCode::AzResultCoreErrorArg,
            k@.len() > 0 && byte_len(append_encoded(old(self).spec_encoded(), k@, v@))
                > old(self).spec_capacity() ==> r is Err && r->Err_0
                == AzReturnCode::AzResultCoreErrorNotEnoughSpace,
            k@.len() > 0 && byte_len(append_encoded(old(self).spec_encoded(), k@, v@))
                <= old(self).spec_capacity() ==> r is Ok,
            r matches Ok(m) ==> m.spec_encoded() == append_encoded(
                old(self).spec_encoded(),
                k@,
                v@,
            ) && m.spec_capacity() == old(self).spec_capacity() && m.spec_cursor() == old(
                self,
            ).spec_cursor() && (old(self).wf() ==> m.wf()) && *final(self) == *final(m),
            r is Err ==> *final(self) == *old(self),
    {
        if k.is_empty() {
            return Err(AzReturnCode::AzResultCoreErrorArg);
        }
        let mut next = self.encoded.clone();
        if !self.encoded.as_str().is_empty() {
            next.append("&");
        }
        let ek = encode_component(k);
        let ev = encode_component(v);
        next.append(ek.as_str());
        next.append("=");
        next.append(ev.as_str());
        proof {
            reveal_strlit("&");
            reveal_strlit("=");
            assert(next@ =~= append_encoded(old(self).spec_encoded(), k@, v@));
            lemma_segments_append(old(self).spec_encoded(), k@, v@);
        }
        if next.as_str().as_bytes().len() > self.capacity {
            return Err(AzReturnCode::AzResultCoreErrorNotEnoughSpace);
        }
        self.encoded = next;
        Ok(self)
    }

    /// The decoded value of the first pair whose key decodes to `k`;
    /// `AzResultCoreErrorItemNotFound` when there is none, `AzResultCoreErrorUnexpectedChar`
    /// when that pair's value does not decode.
    pub fn find(&self, k: &str) -> (r: Result<String, AzReturnCode>)
        ensures
            text_result(r) == find_in(segments(self.spec_encoded()), k@),
    {
        let segs = split_segments(self.encoded.as_str());
        let ghost gs = segments(self.spec_encoded());
        let key = k.to_string();
        let mut i: usize = 0;
        while i < segs.len()
            invariant
                gs == segments(self.spec_encoded()),
                text_views(segs@) == gs,
                key@ == k@,
                i <= segs@.len(),
                find_in(gs.take(i as int), k@) == Err::<Seq<char>, AzReturnCode>(
                    AzReturnCode::AzResultCoreErrorItemNotFound,
                ),
            decreases segs@.len() - i,
        {
            let ghost seg = gs[i as int];
            assert(gs.take(i + 1).drop_last() =~= gs.take(i as int));
            assert(segs@[i as int]@ == seg);
            match split_pair_exec(segs[i].as_str()) {
                Some((ek, ev)) => {
                    match decode_component(ek.as_str()) {
                        Some(dk) => {
                            if dk == key {
                                assert(gs.take(i + 1).last() == seg);
                                assert(split_pair(seg) == Some((ek@, ev@)));
                                assert(decode_text(ek@) == Some(k@));
                                let r = match decode_component(ev.as_str()) {
                                    Some(dv) => Ok(dv),
                                    None => Err(AzReturnCode::AzResultCoreErrorUnexpectedChar),
                                };
                                assert(find_in(gs.take(i + 1), k@) == find_in_pair(seg, k@));
                                assert(text_result(r) == find_in_pair(seg, k@));
                                proof {
                                    lemma_find_prefix(gs, i + 1, k@);
                                }
                                return r;
                            }
                        },
                        None => {},
                    }
                },
                None => {},
            }
            i = i + 1;
        }
        assert(gs.take(i as int) =~= gs);
        Err(AzReturnCode::AzResultCoreErrorItemNotFound)
    }

    /// The next pair, decoded, and one step forward; `AzResultIoTErrorEndOfProperties` once
    /// every pair has been handed out, `AzResultCoreErrorUnexpectedChar` (without a step)
    /// when the next pair does not decode.
    pub fn next(&mut self) -> (r: Result<(String, String), AzReturnCode>)
        ensures
            final(self).spec_encoded() == old(self).spec_encoded(),
            final(self).spec_capacity() == old(self).spec_capacity(),
            old(self).remaining().len() == 0 ==> r == Err::<(String, String), AzReturnCode>(
                AzReturnCode::AzResultIoTErrorEndOfProperties,
            ) && final(self).spec_cursor() == old(self).spec_cursor(),
            old(self).remaining().len() > 0 && decode_pair(old(self).remaining()[0]) is None ==> r
                == Err::<(String, String), AzReturnCode>(
                AzReturnCode::AzResultCoreErrorUnexpectedChar,
            ) && final(self).spec_cursor() == old(self).spec_cursor(),
            old(self).remaining().len() > 0 && decode_pair(old(self).remaining()[0]) is Some ==> r
                is Ok && decode_pair(old(self).remaining()[0]) == Some(
                (r->Ok_0.0@, r->Ok_0.1@),
            ) && final(self).spec_cursor() == old(self).spec_cursor() + 1,
            old(self).wf() ==> final(self).wf(),
    {
        let segs = split_segments(self.encoded.as_str());
        let i = self.current_property_index;
        if i >= segs.len() {
            return Err(AzReturnCode::AzResultIoTErrorEndOfProperties);
        }
        assert(old(self).remaining()[0] == segs@[i as int]@);
        match decode_pair_exec(segs[i].as_str()) {
            Some(p) => {
                self.current_property_index = i + 1;
                Ok(p)
            },
            None => Err(AzReturnCode::AzResultCoreErrorUnexpectedChar),
        }
    }

    /// Every pair not yet handed out, decoded, in order; iteration then stands at the end.
    /// When one does not decode: `AzResultCoreErrorUnexpectedChar`, with the set unchanged.
    pub fn into_array(&mut self) -> (r: Result<Vec<(String, String)>, AzReturnCode>)
        ensures
            final(self).spec_encoded() == old(self).spec_encoded(),
            final(self).spec_capacity() == old(self).spec_capacity(),
            decode_pairs(old(self).remaining()) is None ==> r == Err::<
                Vec<(String, String)>,
                AzReturnCode,
            >(AzReturnCode::AzResultCoreErrorUnexpectedChar) && final(self).spec_cursor()
                == old(self).spec_cursor(),
            decode_pairs(old(self).remaining()) matches Some(ps) ==> r is Ok && pair_views(
                r->Ok_0@,
            ) == ps && final(self).spec_cursor() == segments(old(self).spec_encoded()).len(),
            old(self).wf() ==> final(self).wf(),
    {
        let segs = split_segments(self.encoded.as_str());
        let ghost gs = segments(self.spec_encoded());
        let start = self.current_property_index;
        let mut out: Vec<(String, String)> = Vec::new();
        if start >= segs.len() {
            self.current_property_index = segs.len();
            assert(pair_views(out@) =~= Seq::<(Seq<char>, Seq<char>)>::empty());
            return Ok(out);
        }
        let mut i: usize = start;
        assert(gs.subrange(start as int, start as int) =~= Seq::<Seq<char>>::empty());
        while i < segs.len()
            invariant
                *self == *old(self),
                start == self.current_property_index,
                gs == segments(self.spec_encoded()),
                text_views(segs@) == gs,
                start <= i <= segs@.len(),
                decode_pairs(gs.subrange(start as int, i as int)) == Some(pair_views(out@)),
            decreases segs@.len() - i,
        {
            let ghost part = gs.subrange(start as int, i + 1);
            assert(part.drop_last() =~= gs.subrange(start as int, i as int));
            assert(part.last() == segs@[i as int]@);
            match decode_pair_exec(segs[i].as_str()) {
                Some(p) => {
                    out.push(p);
                    assert(pair_views(out@) =~= pair_views(out@).drop_last().push(
                        pair_views(out@).last(),
                    ));
                },
                None => {
                    proof {
                        let rest = gs.subrange(start as int, gs.len() as int);
                        assert(rest.take(i - start + 1) =~= part);
                        assert(decode_pairs(part) is None);
                        lemma_decode_pairs_prefix(rest, i - start + 1);
                    }
                    return Err(AzReturnCode::AzResultCoreErrorUnexpectedChar);
                },
            }
            i = i + 1;
        }
        self.current_property_index = i;
        Ok(out)
    }
}

/// A failing pair fails every longer list.
pub proof fn lemma_decode_pairs_prefix(segs: Seq<Seq<char>>, n: int)
    requires
        0 <= n <= segs.len(),
        decode_pairs(segs.take(n)) is None,
    ensures
        decode_pairs(segs) is None,
    decreases segs.len() - n,
{
    if n < segs.len() {
        assert(segs.take(n + 1).drop_last() =~= segs.take(n));
        lemma_decode_pairs_prefix(segs, n + 1);
    } else {
        assert(segs.take(n) =~= segs);
    }
}

} // verus!
