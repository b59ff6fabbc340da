//! A tiny abstraction for columnar data.
//!
//! Each storable element type maps to one canonical column shape: primitives
//! to a plain vector, text and byte strings to an offsets-plus-buffer pair,
//! optional values to a presence vector plus a value column with a default
//! placeholder, and rows (tuples of fields) to a tuple of columns composed
//! positionally.

use vstd::prelude::*;

verus! {

/// A type of data storable in a column.
pub trait Data: Sized {
    /// The canonical column shape for data of this type.
    type Col;

    /// The mathematical value of one element, as contracts speak of it.
    type Model;

    /// The model of this element.
    spec fn model(&self) -> Self::Model;

    /// Whether this element may be stored in a column.
    spec fn wf(&self) -> bool;
}

/// A column of data of type `T`.
///
/// A column owns the storage for every element pushed into it, in insertion
/// order; `model_seq` is the sequence of element models that the contracts
/// are stated over.
pub trait Col<T: Data>: Sized {
    /// The column's internal well-formedness.
    spec fn inv(&self) -> bool;

    /// The sequence of stored element models, in insertion order.
    spec fn model_seq(&self) -> Seq<T::Model>;

    /// The exact payload size in bytes, excluding incidental overhead.
    spec fn spec_good_bytes(&self) -> nat;

    /// Creates an empty column.
    fn new() -> (c: Self)
        ensures
            c.inv(),
            c.model_seq() == Seq::<T::Model>::empty(),
    ;

    /// Returns the number of elements in the column.
    fn len(&self) -> (n: usize)
        requires
            self.inv(),
        ensures
            n == self.model_seq().len(),
    ;

    /// Retrieves the value at `idx`.
    fn get(&self, idx: usize) -> (t: T)
        requires
            self.inv(),
            idx < self.model_seq().len(),
        ensures
            t.model() == self.model_seq()[idx as int],
            t.wf(),
    ;

    /// Appends one element to the back of the column.
    fn push(&mut self, t: &T)
        requires
            old(self).inv(),
            t.wf(),
            old(self).model_seq().len() < usize::MAX,
        ensures
            final(self).inv(),
            final(self).model_seq() == old(self).model_seq().push(t.model()),
    ;

    /// Clears all values from the column, leaving allocations to be reused.
    fn clear(&mut self)
        requires
            old(self).inv(),
        ensures
            final(self).inv(),
            final(self).model_seq() == Seq::<T::Model>::empty(),
    ;

    /// Returns the size of the data in this column, saturating at
    /// `usize::MAX`.
    fn good_bytes(&self) -> (n: usize)
        requires
            self.inv(),
        ensures
            n <= self.spec_good_bytes(),
            self.spec_good_bytes() <= usize::MAX ==> n == self.spec_good_bytes(),
    ;
}

/// Adds byte counts, saturating at `usize::MAX`.
pub(crate) fn sat_add(a: usize, b: usize) -> (n: usize)
    ensures
        n <= a + b,
        a + b <= usize::MAX ==> n == a + b,
{
    match a.checked_add(b) {
        Some(n) => n,
        None => usize::MAX,
    }
}

/// Multiplies a byte count by an element width, saturating at `usize::MAX`.
pub(crate) fn sat_mul(a: usize, b: usize) -> (n: usize)
    ensures
        n <= a * b,
        a * b <= usize::MAX ==> n == a * b,
{
    match a.checked_mul(b) {
        Some(n) => n,
        None => usize::MAX,
    }
}

impl Data for () {
    type Col = usize;

    type Model = ();

    open spec fn model(&self) -> () {
        ()
    }

    open spec fn wf(&self) -> bool {
        true
    }
}

/// The unit type needs no payload: its column is a bare element count.
impl Col<()> for usize {
    open spec fn inv(&self) -> bool {
        true
    }

    open spec fn model_seq(&self) -> Seq<()> {
        Seq::new(*self as nat, |i: int| ())
    }

    open spec fn spec_good_bytes(&self) -> nat {
        8
    }

    fn new() -> (c: Self) {
        let c: usize = 0;
        proof {
            assert(c.model_seq() =~= Seq::<()>::empty());
        }
        c
    }

    fn len(&self) -> (n: usize) {
        *self
    }

    fn get(&self, idx: usize) -> (t: ()) {
        ()
    }

    fn push(&mut self, t: &()) {
        *self = *self + 1;
        proof {
            assert(self.model_seq() =~= old(self).model_seq().push(()));
        }
    }

    fn clear(&mut self) {
        *self = 0;
        proof {
            assert(self.model_seq() =~= Seq::<()>::empty());
        }
    }

    fn good_bytes(&self) -> (n: usize) {
        8
    }
}

impl Data for bool {
    type Col = Vec<bool>;

    type Model = bool;

    open spec fn model(&self) -> bool {
        *self
    }

    open spec fn wf(&self) -> bool {
        true
    }
}

impl Col<bool> for Vec<bool> {
    open spec fn inv(&self) -> bool {
        true
    }

    open spec fn model_seq(&self) -> Seq<bool> {
        self@
    }

    open spec fn spec_good_bytes(&self) -> nat {
        self@.len()
    }

    fn new() -> (c: Self) {
        Vec::new()
    }

    fn len(&self) -> (n: usize) {
        Vec::len(self)
    }

    fn get(&self, idx: usize) -> (t: bool) {
        self[idx]
    }

    fn push(&mut self, t: &bool) {
        Vec::push(self, *t);
    }

    fn clear(&mut self) {
        Vec::clear(self);
    }

    fn good_bytes(&self) -> (n: usize) {
        Vec::len(self)
    }
}

impl Data for u64 {
    type Col = Vec<u64>;

    type Model = u64;

    open spec fn model(&self) -> u64 {
        *self
    }

    open spec fn wf(&self) -> bool {
        true
    }
}

impl Col<u64> for Vec<u64> {
    open spec fn inv(&self) -> bool {
        true
    }

    open spec fn model_seq(&self) -> Seq<u64> {
        self@
    }

    open spec fn spec_good_bytes(&self) -> nat {
        self@.len() * 8
    }

    fn new() -> (c: Self) {
        Vec::new()
    }

    fn len(&self) -> (n: usize) {
        Vec::len(self)
    }

    fn get(&self, idx: usize) -> (t: u64) {
        self[idx]
    }

    fn push(&mut self, t: &u64) {
        Vec::push(self, *t);
    }

    fn clear(&mut self) {
        Vec::clear(self);
    }

    fn good_bytes(&self) -> (n: usize) {
        sat_mul(Vec::len(self), 8)
    }
}

impl Data for i64 {
    type Col = Vec<i64>;

    type Model = i64;

    open spec fn model(&self) -> i64 {
        *self
    }

    open spec fn wf(&self) -> bool {
        true
    }
}

impl Col<i64> for Vec<i64> {
    open spec fn inv(&self) -> bool {
        true
    }

    open spec fn model_seq(&self) -> Seq<i64> {
        self@
    }

    open spec fn spec_good_bytes(&self) -> nat {
        self@.len() * 8
    }

    fn new() -> (c: Self) {
        Vec::new()
    }

    fn len(&self) -> (n: usize) {
        Vec::len(self)
    }

    fn get(&self, idx: usize) -> (t: i64) {
        self[idx]
    }

    fn push(&mut self, t: &i64) {
        Vec::push(self, *t);
    }

    fn clear(&mut self) {
        Vec::clear(self);
    }

    fn good_bytes(&self) -> (n: usize) {
        sat_mul(Vec::len(self), 8)
    }
}

/// Relies on `String::clear` from std: it empties the string and keeps the
/// allocation for reuse.
#[verifier::external_body]
pub(crate) fn clear_string(s: &mut String)
    ensures
        final(s)@ == Seq::<char>::empty(),
{
    s.clear();
}

/// A column of text values: ascending end offsets (in characters) into one
/// concatenated buffer. Element `i` occupies `[offsets[i-1], offsets[i])`
/// (`0` as the lower end for `i == 0`).
pub struct TextCol {
    offsets: Vec<usize>,
    buf: String,
}

impl TextCol {
    /// The start position of element `i` in the concatenated buffer.
    pub closed spec fn start_of(&self, i: int) -> int {
        if i == 0 {
            0
        } else {
            self.offsets@[i - 1] as int
        }
    }
}

impl Data for String {
    type Col = TextCol;

    type Model = Seq<char>;

    open spec fn model(&self) -> Seq<char> {
        self@
    }

    open spec fn wf(&self) -> bool {
        true
    }
}

impl Col<String> for TextCol {
    closed spec fn inv(&self) -> bool {
        &&& forall|i: int|
            0 <= i < self.offsets@.len() ==> #[trigger] self.offsets@[i] <= self.buf@.len()
        &&& forall|i: int|
            0 < i < self.offsets@.len() ==> self.offsets@[i - 1] <= #[trigger] self.offsets@[i]
        &&& self.offsets@.len() > 0 ==> self.offsets@[self.offsets@.len() - 1] == self.buf@.len()
        &&& self.offsets@.len() == 0 ==> self.buf@.len() == 0
    }

    closed spec fn model_seq(&self) -> Seq<Seq<char>> {
        Seq::new(
            self.offsets@.len(),
            |i: int| self.buf@.subrange(self.start_of(i), self.offsets@[i] as int),
        )
    }

    closed spec fn spec_good_bytes(&self) -> nat {
        self.offsets@.len() * 8 + vstd::utf8::encode_utf8(self.buf@).len()
    }

    fn new() -> (c: Self) {
        let c = TextCol { offsets: Vec::new(), buf: String::new() };
        proof {
            assert(c.model_seq() =~= Seq::<Seq<char>>::empty());
        }
        c
    }

    fn len(&self) -> (n: usize) {
        Vec::len(&self.offsets)
    }

    fn get(&self, idx: usize) -> (t: String) {
        let end = self.offsets[idx];
        let start = if idx == 0 {
            0
        } else {
            self.offsets[idx - 1]
        };
        let sub = self.buf.as_str().substring_char(start, end);
        String::from_str(sub)
    }

    fn push(&mut self, t: &String) {
        self.buf.append(t.as_str());
        let n = self.buf.as_str().unicode_len();
        self.offsets.push(n);
        proof {
            assert(self.model_seq() =~~= old(self).model_seq().push(t@));
        }
    }

    fn clear(&mut self) {
        self.offsets.clear();
        clear_string(&mut self.buf);
        proof {
            assert(self.model_seq() =~= Seq::<Seq<char>>::empty());
        }
    }

    fn good_bytes(&self) -> (n: usize) {
        let off = sat_mul(Vec::len(&self.offsets), 8);
        sat_add(off, self.buf.as_str().len())
    }
}

/// A column of byte strings: ascending end offsets into one concatenated
/// byte buffer, laid out as in [`TextCol`].
pub struct BytesCol {
    offsets: Vec<usize>,
    buf: Vec<u8>,
}

impl BytesCol {
    /// The start position of element `i` in the concatenated buffer.
    pub closed spec fn start_of(&self, i: int) -> int {
        if i == 0 {
            0
        } else {
            self.offsets@[i - 1] as int
        }
    }
}

impl Data for Vec<u8> {
    type Col = BytesCol;

    type Model = Seq<u8>;

    open spec fn model(&self) -> Seq<u8> {
        self@
    }

    open spec fn wf(&self) -> bool {
        true
    }
}

impl Col<Vec<u8>> for BytesCol {
    closed spec fn inv(&self) -> bool {
        &&& forall|i: int|
            0 <= i < self.offsets@.len() ==> #[trigger] self.offsets@[i] <= self.buf@.len()
        &&& forall|i: int|
            0 < i < self.offsets@.len() ==> self.offsets@[i - 1] <= #[trigger] self.offsets@[i]
        &&& self.offsets@.len() > 0 ==> self.offsets@[self.offsets@.len() - 1] == self.buf@.len()
        &&& self.offsets@.len() == 0 ==> self.buf@.len() == 0
    }

    closed spec fn model_seq(&self) -> Seq<Seq<u8>> {
        Seq::new(
            self.offsets@.len(),
            |i: int| self.buf@.subrange(self.start_of(i), self.offsets@[i] as int),
        )
    }

    closed spec fn spec_good_bytes(&self) -> nat {
        self.offsets@.len() * 8 + self.buf@.len()
    }

    fn new() -> (c: Self) {
        let c = BytesCol { offsets: Vec::new(), buf: Vec::new() };
        proof {
            assert(c.model_seq() =~= Seq::<Seq<u8>>::empty());
        }
        c
    }

    fn len(&self) -> (n: usize) {
        Vec::len(&self.offsets)
    }

    fn get(&self, idx: usize) -> (t: Vec<u8>) {
        let end = self.offsets[idx];
        let start = if idx == 0 {
            0
        } else {
            self.offsets[idx - 1]
        };
        let sub = vstd::slice::slice_subrange(self.buf.as_slice(), start, end);
        let t = vstd::slice::slice_to_vec(sub);
        proof {
            assert(t@ =~= self.model_seq()[idx as int]);
        }
        t
    }

    fn push(&mut self, t: &Vec<u8>) {
        self.buf.extend_from_slice(t.as_slice());
        let n = Vec::len(&self.buf);
        self.offsets.push(n);
        proof {
            assert(self.model_seq() =~~= old(self).model_seq().push(t@));
        }
    }

    fn clear(&mut self) {
        self.offsets.clear();
        self.buf.clear();
        proof {
            assert(self.model_seq() =~= Seq::<Seq<u8>>::empty());
        }
    }

    fn good_bytes(&self) -> (n: usize) {
        let off = sat_mul(Vec::len(&self.offsets), 8);
        sat_add(off, Vec::len(&self.buf))
    }
}

/// A column of optional values: a presence vector plus a value vector of the
/// same length; absent entries store `0` as a placeholder so that the length
/// invariant holds.
pub struct OptU64Col {
    present: Vec<bool>,
    vals: Vec<u64>,
}

impl Data for Option<u64> {
    type Col = OptU64Col;

    type Model = Option<u64>;

    open spec fn model(&self) -> Option<u64> {
        *self
    }

    open spec fn wf(&self) -> bool {
        true
    }
}

impl Col<Option<u64>> for OptU64Col {
    closed spec fn inv(&self) -> bool {
        self.present@.len() == self.vals@.len()
    }

    closed spec fn model_seq(&self) -> Seq<Option<u64>> {
        Seq::new(
            self.present@.len(),
            |i: int|
                if self.present@[i] {
                    Some(self.vals@[i])
                } else {
                    None
                },
        )
    }

    closed spec fn spec_good_bytes(&self) -> nat {
        self.present@.len() + self.vals@.len() * 8
    }

    fn new() -> (c: Self) {
        let c = OptU64Col { present: Vec::new(), vals: Vec::new() };
        proof {
            assert(c.model_seq() =~= Seq::<Option<u64>>::empty());
        }
        c
    }

    fn len(&self) -> (n: usize) {
        Vec::len(&self.present)
    }

    fn get(&self, idx: usize) -> (t: Option<u64>) {
        if self.present[idx] {
            Some(self.vals[idx])
        } else {
            None
        }
    }

    fn push(&mut self, t: &Option<u64>) {
        match t {
            Some(v) => {
                self.present.push(true);
                self.vals.push(*v);
            },
            None => {
                self.present.push(false);
                self.vals.push(0);
            },
        }
        proof {
            assert(self.model_seq() =~= old(self).model_seq().push(t.model()));
        }
    }

    fn clear(&mut self) {
        self.present.clear();
        self.vals.clear();
        proof {
            assert(self.model_seq() =~= Seq::<Option<u64>>::empty());
        }
    }

    fn good_bytes(&self) -> (n: usize) {
        let v = sat_mul(Vec::len(&self.vals), 8);
        sat_add(Vec::len(&self.present), v)
    }
}

/// Neighbors are undisturbed and the new entry reads back exactly: pushing a
/// model `m` onto a column's model sequence leaves every existing index
/// unchanged and stores `m` at the new last index, so a `push` of `None`
/// (or `Some(x)`) followed by a `get` at that index returns the value pushed,
/// with no distortion of neighboring entries.
pub proof fn lemma_push_round_trip<M>(s: Seq<M>, m: M)
    ensures
        s.push(m)[s.len() as int] == m,
        forall|i: int| 0 <= i < s.len() ==> s.push(m)[i] == s[i],
{
}

impl<T0: Data, T1: Data, T2: Data> Data for (T0, T1, T2) {
    type Col = (T0::Col, T1::Col, T2::Col);

    type Model = (T0::Model, T1::Model, T2::Model);

    open spec fn model(&self) -> (T0::Model, T1::Model, T2::Model) {
        (self.0.model(), self.1.model(), self.2.model())
    }

    open spec fn wf(&self) -> bool {
        self.0.wf() && self.1.wf() && self.2.wf()
    }
}

impl<T0: Data, T1: Data, T2: Data, C0: Col<T0>, C1: Col<T1>, C2: Col<T2>> Col<(T0, T1, T2)> for (C0, C1, C2) {
    open spec fn inv(&self) -> bool {
        &&& self.0.inv()
        &&& self.1.inv()
        &&& self.2.inv()
        &&& self.1.model_seq().len() == self.0.model_seq().len()
        &&& self.2.model_seq().len() == self.0.model_seq().len()
    }

    open spec fn model_seq(&self) -> Seq<(T0::Model, T1::Model, T2::Model)> {
        Seq::new(
            self.0.model_seq().len(),
            |i: int| (self.0.model_seq()[i], self.1.model_seq()[i], self.2.model_seq()[i]),
        )
    }

    open spec fn spec_good_bytes(&self) -> nat {
        self.0.spec_good_bytes() + self.1.spec_good_bytes() + self.2.spec_good_bytes()
    }

    fn new() -> (c: Self) {
        let c = (C0::new(), C1::new(), C2::new());
        proof {
            assert(c.model_seq() =~= Seq::<(T0::Model, T1::Model, T2::Model)>::empty());
        }
        c
    }

    fn len(&self) -> (n: usize) {
        self.0.len()
    }

    fn get(&self, idx: usize) -> (t: (T0, T1, T2)) {
        (self.0.get(idx), self.1.get(idx), self.2.get(idx))
    }

    fn push(&mut self, t: &(T0, T1, T2)) {
        self.0.push(&t.0);
        self.1.push(&t.1);
        self.2.push(&t.2);
        proof {
            assert(self.model_seq() =~= old(self).model_seq().push(t.model()));
        }
    }

    fn clear(&mut self) {
        self.0.clear();
        self.1.clear();
        self.2.clear();
        proof {
            assert(self.model_seq() =~= Seq::<(T0::Model, T1::Model, T2::Model)>::empty());
        }
    }

    fn good_bytes(&self) -> (n: usize) {
        let mut n = self.0.good_bytes();
        n = sat_add(n, self.1.good_bytes());
        n = sat_add(n, self.2.good_bytes());
        n
    }
}

impl<T0: Data, T1: Data, T2: Data, T3: Data> Data for (T0, T1, T2, T3) {
    type Col = (T0::Col, T1::Col, T2::Col, T3::Col);

    type Model = (T0::Model, T1::Model, T2::Model, T3::Model);

    open spec fn model(&self) -> (T0::Model, T1::Model, T2::Model, T3::Model) {
        (self.0.model(), self.1.model(), self.2.model(), self.3.model())
    }

    open spec fn wf(&self) -> bool {
        self.0.wf() && self.1.wf() && self.2.wf() && self.3.wf()
    }
}

impl<T0: Data, T1: Data, T2: Data, T3: Data, C0: Col<T0>, C1: Col<T1>, C2: Col<T2>, C3: Col<T3>> Col<(T0, T1, T2, T3)> for (C0, C1, C2, C3) {
    open spec fn inv(&self) -> bool {
        &&& self.0.inv()
        &&& self.1.inv()
        &&& self.2.inv()
        &&& self.3.inv()
        &&& self.1.model_seq().len() == self.0.model_seq().len()
        &&& self.2.model_seq().len() == self.0.model_seq().len()
        &&& self.3.model_seq().len() == self.0.model_seq().len()
    }

    open spec fn model_seq(&self) -> Seq<(T0::Model, T1::Model, T2::Model, T3::Model)> {
        Seq::new(
            self.0.model_seq().len(),
            |i: int| (self.0.model_seq()[i], self.1.model_seq()[i], self.2.model_seq()[i], self.3.model_seq()[i]),
        )
    }

    open spec fn spec_good_bytes(&self) -> nat {
        self.0.spec_good_bytes() + self.1.spec_good_bytes() + self.2.spec_good_bytes() + self.3.spec_good_bytes()
    }

    fn new() -> (c: Self) {
        let c = (C0::new(), C1::new(), C2::new(), C3::new());
        proof {
            assert(c.model_seq() =~= Seq::<(T0::Model, T1::Model, T2::Model, T3::Model)>::empty());
        }
        c
    }

    fn len(&self) -> (n: usize) {
        self.0.len()
    }

    fn get(&self, idx: usize) -> (t: (T0, T1, T2, T3)) {
        (self.0.get(idx), self.1.get(idx), self.2.get(idx), self.3.get(idx))
    }

    fn push(&mut self, t: &(T0, T1, T2, T3)) {
        self.0.push(&t.0);
        self.1.push(&t.1);
        self.2.push(&t.2);
        self.3.push(&t.3);
        proof {
            assert(self.model_seq() =~= old(self).model_seq().push(t.model()));
        }
    }

    fn clear(&mut self) {
        self.0.clear();
        self.1.clear();
        self.2.clear();
        self.3.clear();
        proof {
            assert(self.model_seq() =~= Seq::<(T0::Model, T1::Model, T2::Model, T3::Model)>::empty());
        }
    }

    fn good_bytes(&self) -> (n: usize) {
        let mut n = self.0.good_bytes();
        n = sat_add(n, self.1.good_bytes());
        n = sat_add(n, self.2.good_bytes());
        n = sat_add(n, self.3.good_bytes());
        n
    }
}

impl<T0: Data, T1: Data, T2: Data, T3: Data, T4: Data> Data for (T0, T1, T2, T3, T4) {
    type Col = (T0::Col, T1::Col, T2::Col, T3::Col, T4::Col);

    type Model = (T0::Model, T1::Model, T2::Model, T3::Model, T4::Model);

    open spec fn model(&self) -> (T0::Model, T1::Model, T2::Model, T3::Model, T4::Model) {
        (self.0.model(), self.1.model(), self.2.model(), self.3.model(), self.4.model())
    }

    open spec fn wf(&self) -> bool {
        self.0.wf() && self.1.wf() && self.2.wf() && self.3.wf() && self.4.wf()
    }
}

impl<T0: Data, T1: Data, T2: Data, T3: Data, T4: Data, C0: Col<T0>, C1: Col<T1>, C2: Col<T2>, C3: Col<T3>, C4: Col<T4>> Col<(T0, T1, T2, T3, T4)> for (C0, C1, C2, C3, C4) {
    open spec fn inv(&self) -> bool {
        &&& self.0.inv()
        &&& self.1.inv()
        &&& self.2.inv()
        &&& self.3.inv()
        &&& self.4.inv()
        &&& self.1.model_seq().len() == self.0.model_seq().len()
        &&& self.2.model_seq().len() == self.0.model_seq().len()
        &&& self.3.model_seq().len() == self.0.model_seq().len()
        &&& self.4.model_seq().len() == self.0.model_seq().len()
    }

    open spec fn model_seq(&self) -> Seq<(T0::Model, T1::Model, T2::Model, T3::Model, T4::Model)> {
        Seq::new(
            self.0.model_seq().len(),
            |i: int| (self.0.model_seq()[i], self.1.model_seq()[i], self.2.model_seq()[i], self.3.model_seq()[i], self.4.model_seq()[i]),
        )
    }

    open spec fn spec_good_bytes(&self) -> nat {
        self.0.spec_good_bytes() + self.1.spec_good_bytes() + self.2.spec_good_bytes() + self.3.spec_good_bytes() + self.4.spec_good_bytes()
    }

    fn new() -> (c: Self) {
        let c = (C0::new(), C1::new(), C2::new(), C3::new(), C4::new());
        proof {
            assert(c.model_seq() =~= Seq::<(T0::Model, T1::Model, T2::Model, T3::Model, T4::Model)>::empty());
        }
        c
    }

    fn len(&self) -> (n: usize) {
        self.0.len()
    }

    fn get(&self, idx: usize) -> (t: (T0, T1, T2, T3, T4)) {
        (self.0.get(idx), self.1.get(idx), self.2.get(idx), self.3.get(idx), self.4.get(idx))
    }

    fn push(&mut self, t: &(T0, T1, T2, T3, T4)) {
        self.0.push(&t.0);
        self.1.push(&t.1);
        self.2.push(&t.2);
        self.3.push(&t.3);
        self.4.push(&t.4);
        proof {
            assert(self.model_seq() =~= old(self).model_seq().push(t.model()));
        }
    }

    fn clear(&mut self) {
        self.0.clear();
        self.1.clear();
        self.2.clear();
        self.3.clear();
        self.4.clear();
        proof {
            assert(self.model_seq() =~= Seq::<(T0::Model, T1::Model, T2::Model, T3::Model, T4::Model)>::empty());
        }
    }

    fn good_bytes(&self) -> (n: usize) {
        let mut n = self.0.good_bytes();
        n = sat_add(n, self.1.good_bytes());
        n = sat_add(n, self.2.good_bytes());
        n = sat_add(n, self.3.good_bytes());
        n = sat_add(n, self.4.good_bytes());
        n
    }
}

impl<T0: Data, T1: Data, T2: Data, T3: Data, T4: Data, T5: Data, T6: Data, T7: Data> Data for (T0, T1, T2, T3, T4, T5, T6, T7) {
    type Col = (T0::Col, T1::Col, T2::Col, T3::Col, T4::Col, T5::Col, T6::Col, T7::Col);

    type Model = (T0::Model, T1::Model, T2::Model, T3::Model, T4::Model, T5::Model, T6::Model, T7::Model);

    open spec fn model(&self) -> (T0::Model, T1::Model, T2::Model, T3::Model, T4::Model, T5::Model, T6::Model, T7::Model) {
        (self.0.model(), self.1.model(), self.2.model(), self.3.model(), self.4.model(), self.5.model(), self.6.model(), self.7.model())
    }

    open spec fn wf(&self) -> bool {
        self.0.wf() && self.1.wf() && self.2.wf() && self.3.wf() && self.4.wf() && self.5.wf() && self.6.wf() && self.7.wf()
    }
}

impl<T0: Data, T1: Data, T2: Data, T3: Data, T4: Data, T5: Data, T6: Data, T7: Data, C0: Col<T0>, C1: Col<T1>, C2: Col<T2>, C3: Col<T3>, C4: Col<T4>, C5: Col<T5>, C6: Col<T6>, C7: Col<T7>> Col<(T0, T1, T2, T3, T4, T5, T6, T7)> for (C0, C1, C2, C3, C4, C5, C6, C7) {
    open spec fn inv(&self) -> bool {
        &&& self.0.inv()
        &&& self.1.inv()
        &&& self.2.inv()
        &&& self.3.inv()
        &&& self.4.inv()
        &&& self.5.inv()
        &&& self.6.inv()
        &&& self.7.inv()
        &&& self.1.model_seq().len() == self.0.model_seq().len()
        &&& self.2.model_seq().len() == self.0.model_seq().len()
        &&& self.3.model_seq().len() == self.0.model_seq().len()
        &&& self.4.model_seq().len() == self.0.model_seq().len()
        &&& self.5.model_seq().len() == self.0.model_seq().len()
        &&& self.6.model_seq().len() == self.0.model_seq().len()
        &&& self.7.model_seq().len() == self.0.model_seq().len()
    }

    open spec fn model_seq(&self) -> Seq<(T0::Model, T1::Model, T2::Model, T3::Model, T4::Model, T5::Model, T6::Model, T7::Model)> {
        Seq::new(
            self.0.model_seq().len(),
            |i: int| (self.0.model_seq()[i], self.1.model_seq()[i], self.2.model_seq()[i], self.3.model_seq()[i], self.4.model_seq()[i], self.5.model_seq()[i], self.6.model_seq()[i], self.7.model_seq()[i]),
        )
    }

    open spec fn spec_good_bytes(&self) -> nat {
        self.0.spec_good_bytes() + self.1.spec_good_bytes() + self.2.spec_good_bytes() + self.3.spec_good_bytes() + self.4.spec_good_bytes() + self.5.spec_good_bytes() + self.6.spec_good_bytes() + self.7.spec_good_bytes()
    }

    fn new() -> (c: Self) {
        let c = (C0::new(), C1::new(), C2::new(), C3::new(), C4::new(), C5::new(), C6::new(), C7::new());
        proof {
            assert(c.model_seq() =~= Seq::<(T0::Model, T1::Model, T2::Model, T3::Model, T4::Model, T5::Model, T6::Model, T7::Model)>::empty());
        }
        c
    }

    fn len(&self) -> (n: usize) {
        self.0.len()
    }

    fn get(&self, idx: usize) -> (t: (T0, T1, T2, T3, T4, T5, T6, T7)) {
        (self.0.get(idx), self.1.get(idx), self.2.get(idx), self.3.get(idx), self.4.get(idx), self.5.get(idx), self.6.get(idx), self.7.get(idx))
    }

    fn push(&mut self, t: &(T0, T1, T2, T3, T4, T5, T6, T7)) {
        self.0.push(&t.0);
        self.1.push(&t.1);
        self.2.push(&t.2);
        self.3.push(&t.3);
        self.4.push(&t.4);
        self.5.push(&t.5);
        self.6.push(&t.6);
        self.7.push(&t.7);
        proof {
            assert(self.model_seq() =~= old(self).model_seq().push(t.model()));
        }
    }

    fn clear(&mut self) {
        self.0.clear();
        self.1.clear();
        self.2.clear();
        self.3.clear();
        self.4.clear();
        self.5.clear();
        self.6.clear();
        self.7.clear();
        proof {
            assert(self.model_seq() =~= Seq::<(T0::Model, T1::Model, T2::Model, T3::Model, T4::Model, T5::Model, T6::Model, T7::Model)>::empty());
        }
    }

    fn good_bytes(&self) -> (n: usize) {
        let mut n = self.0.good_bytes();
        n = sat_add(n, self.1.good_bytes());
        n = sat_add(n, self.2.good_bytes());
        n = sat_add(n, self.3.good_bytes());
        n = sat_add(n, self.4.good_bytes());
        n = sat_add(n, self.5.good_bytes());
        n = sat_add(n, self.6.good_bytes());
        n = sat_add(n, self.7.good_bytes());
        n
    }
}

impl<T0: Data, T1: Data, T2: Data, T3: Data, T4: Data, T5: Data, T6: Data, T7: Data, T8: Data> Data for (T0, T1, T2, T3, T4, T5, T6, T7, T8) {
    type Col = (T0::Col, T1::Col, T2::Col, T3::Col, T4::Col, T5::Col, T6::Col, T7::Col, T8::Col);

    type Model = (T0::Model, T1::Model, T2::Model, T3::Model, T4::Model, T5::Model, T6::Model, T7::Model, T8::Model);

    open spec fn model(&self) -> (T0::Model, T1::Model, T2::Model, T3::Model, T4::Model, T5::Model, T6::Model, T7::Model, T8::Model) {
        (self.0.model(), self.1.model(), self.2.model(), self.3.model(), self.4.model(), self.5.model(), self.6.model(), self.7.model(), self.8.model())
    }

    open spec fn wf(&self) -> bool {
        self.0.wf() && self.1.wf() && self.2.wf() && self.3.wf() && self.4.wf() && self.5.wf() && self.6.wf() && self.7.wf() && self.8.wf()
    }
}

impl<T0: Data, T1: Data, T2: Data, T3: Data, T4: Data, T5: Data, T6: Data, T7: Data, T8: Data, C0: Col<T0>, C1: Col<T1>, C2: Col<T2>, C3: Col<T3>, C4: Col<T4>, C5: Col<T5>, C6: Col<T6>, C7: Col<T7>, C8: Col<T8>> Col<(T0, T1, T2, T3, T4, T5, T6, T7, T8)> for (C0, C1, C2, C3, C4, C5, C6, C7, C8) {
    open spec fn inv(&self) -> bool {
        &&& self.0.inv()
        &&& self.1.inv()
        &&& self.2.inv()
        &&& self.3.inv()
        &&& self.4.inv()
        &&& self.5.inv()
        &&& self.6.inv()
        &&& self.7.inv()
        &&& self.8.inv()
        &&& self.1.model_seq().len() == self.0.model_seq().len()
        &&& self.2.model_seq().len() == self.0.model_seq().len()
        &&& self.3.model_seq().len() == self.0.model_seq().len()
        &&& self.4.model_seq().len() == self.0.model_seq().len()
        &&& self.5.model_seq().len() == self.0.model_seq().len()
        &&& self.6.model_seq().len() == self.0.model_seq().len()
        &&& self.7.model_seq().len() == self.0.model_seq().len()
        &&& self.8.model_seq().len() == self.0.model_seq().len()
    }

    open spec fn model_seq(&self) -> Seq<(T0::Model, T1::Model, T2::Model, T3::Model, T4::Model, T5::Model, T6::Model, T7::Model, T8::Model)> {
        Seq::new(
            self.0.model_seq().len(),
            |i: int| (self.0.model_seq()[i], self.1.model_seq()[i], self.2.model_seq()[i], self.3.model_seq()[i], self.4.model_seq()[i], self.5.model_seq()[i], self.6.model_seq()[i], self.7.model_seq()[i], self.8.model_seq()[i]),
        )
    }

    open spec fn spec_good_bytes(&self) -> nat {
        self.0.spec_good_bytes() + self.1.spec_good_bytes() + self.2.spec_good_bytes() + self.3.spec_good_bytes() + self.4.spec_good_bytes() + self.5.spec_good_bytes() + self.6.spec_good_bytes() + self.7.spec_good_bytes() + self.8.spec_good_bytes()
    }

    fn new() -> (c: Self) {
        let c = (C0::new(), C1::new(), C2::new(), C3::new(), C4::new(), C5::new(), C6::new(), C7::new(), C8::new());
        proof {
            assert(c.model_seq() =~= Seq::<(T0::Model, T1::Model, T2::Model, T3::Model, T4::Model, T5::Model, T6::Model, T7::Model, T8::Model)>::empty());
        }
        c
    }

    fn len(&self) -> (n: usize) {
        self.0.len()
    }

    fn get(&self, idx: usize) -> (t: (T0, T1, T2, T3, T4, T5, T6, T7, T8)) {
        (self.0.get(idx), self.1.get(idx), self.2.get(idx), self.3.get(idx), self.4.get(idx), self.5.get(idx), self.6.get(idx), self.7.get(idx), self.8.get(idx))
    }

    fn push(&mut self, t: &(T0, T1, T2, T3, T4, T5, T6, T7, T8)) {
        self.0.push(&t.0);
        self.1.push(&t.1);
        self.2.push(&t.2);
        self.3.push(&t.3);
        self.4.push(&t.4);
        self.5.push(&t.5);
        self.6.push(&t.6);
        self.7.push(&t.7);
        self.8.push(&t.8);
        proof {
            assert(self.model_seq() =~= old(self).model_seq().push(t.model()));
        }
    }

    fn clear(&mut self) {
        self.0.clear();
        self.1.clear();
        self.2.clear();
        self.3.clear();
        self.4.clear();
        self.5.clear();
        self.6.clear();
        self.7.clear();
        self.8.clear();
        proof {
            assert(self.model_seq() =~= Seq::<(T0::Model, T1::Model, T2::Model, T3::Model, T4::Model, T5::Model, T6::Model, T7::Model, T8::Model)>::empty());
        }
    }

    fn good_bytes(&self) -> (n: usize) {
        let mut n = self.0.good_bytes();
        n = sat_add(n, self.1.good_bytes());
        n = sat_add(n, self.2.good_bytes());
        n = sat_add(n, self.3.good_bytes());
        n = sat_add(n, self.4.good_bytes());
        n = sat_add(n, self.5.good_bytes());
        n = sat_add(n, self.6.good_bytes());
        n = sat_add(n, self.7.good_bytes());
        n = sat_add(n, self.8.good_bytes());
        n
    }
}

impl<T0: Data, T1: Data, T2: Data, T3: Data, T4: Data, T5: Data, T6: Data, T7: Data, T8: Data, T9: Data> Data for (T0, T1, T2, T3, T4, T5, T6, T7, T8, T9) {
    type Col = (T0::Col, T1::Col, T2::Col, T3::Col, T4::Col, T5::Col, T6::Col, T7::Col, T8::Col, T9::Col);

    type Model = (T0::Model, T1::Model, T2::Model, T3::Model, T4::Model, T5::Model, T6::Model, T7::Model, T8::Model, T9::Model);

    open spec fn model(&self) -> (T0::Model, T1::Model, T2::Model, T3::Model, T4::Model, T5::Model, T6::Model, T7::Model, T8::Model, T9::Model) {
        (self.0.model(), self.1.model(), self.2.model(), self.3.model(), self.4.model(), self.5.model(), self.6.model(), self.7.model(), self.8.model(), self.9.model())
    }

    open spec fn wf(&self) -> bool {
        self.0.wf() && self.1.wf() && self.2.wf() && self.3.wf() && self.4.wf() && self.5.wf() && self.6.wf() && self.7.wf() && self.8.wf() && self.9.wf()
    }
}

impl<T0: Data, T1: Data, T2: Data, T3: Data, T4: Data, T5: Data, T6: Data, T7: Data, T8: Data, T9: Data, C0: Col<T0>, C1: Col<T1>, C2: Col<T2>, C3: Col<T3>, C4: Col<T4>, C5: Col<T5>, C6: Col<T6>, C7: Col<T7>, C8: Col<T8>, C9: Col<T9>> Col<(T0, T1, T2, T3, T4, T5, T6, T7, T8, T9)> for (C0, C1, C2, C3, C4, C5, C6, C7, C8, C9) {
    open spec fn inv(&self) -> bool {
        &&& self.0.inv()
        &&& self.1.inv()
        &&& self.2.inv()
        &&& self.3.inv()
        &&& self.4.inv()
        &&& self.5.inv()
        &&& self.6.inv()
        &&& self.7.inv()
        &&& self.8.inv()
        &&& self.9.inv()
        &&& self.1.model_seq().len() == self.0.model_seq().len()
        &&& self.2.model_seq().len() == self.0.model_seq().len()
        &&& self.3.model_seq().len() == self.0.model_seq().len()
        &&& self.4.model_seq().len() == self.0.model_seq().len()
        &&& self.5.model_seq().len() == self.0.model_seq().len()
        &&& self.6.model_seq().len() == self.0.model_seq().len()
        &&& self.7.model_seq().len() == self.0.model_seq().len()
        &&& self.8.model_seq().len() == self.0.model_seq().len()
        &&& self.9.model_seq().len() == self.0.model_seq().len()
    }

    open spec fn model_seq(&self) -> Seq<(T0::Model, T1::Model, T2::Model, T3::Model, T4::Model, T5::Model, T6::Model, T7::Model, T8::Model, T9::Model)> {
        Seq::new(
            self.0.model_seq().len(),
            |i: int| (self.0.model_seq()[i], self.1.model_seq()[i], self.2.model_seq()[i], self.3.model_seq()[i], self.4.model_seq()[i], self.5.model_seq()[i], self.6.model_seq()[i], self.7.model_seq()[i], self.8.model_seq()[i], self.9.model_seq()[i]),
        )
    }

    open spec fn spec_good_bytes(&self) -> nat {
        self.0.spec_good_bytes() + self.1.spec_good_bytes() + self.2.spec_good_bytes() + self.3.spec_good_bytes() + self.4.spec_good_bytes() + self.5.spec_good_bytes() + self.6.spec_good_bytes() + self.7.spec_good_bytes() + self.8.spec_good_bytes() + self.9.spec_good_bytes()
    }

    fn new() -> (c: Self) {
        let c = (C0::new(), C1::new(), C2::new(), C3::new(), C4::new(), C5::new(), C6::new(), C7::new(), C8::new(), C9::new());
        proof {
            assert(c.model_seq() =~= Seq::<(T0::Model, T1::Model, T2::Model, T3::Model, T4::Model, T5::Model, T6::Model, T7::Model, T8::Model, T9::Model)>::empty());
        }
        c
    }

    fn len(&self) -> (n: usize) {
        self.0.len()
    }

    fn get(&self, idx: usize) -> (t: (T0, T1, T2, T3, T4, T5, T6, T7, T8, T9)) {
        (self.0.get(idx), self.1.get(idx), self.2.get(idx), self.3.get(idx), self.4.get(idx), self.5.get(idx), self.6.get(idx), self.7.get(idx), self.8.get(idx), self.9.get(idx))
    }

    fn push(&mut self, t: &(T0, T1, T2, T3, T4, T5, T6, T7, T8, T9)) {
        self.0.push(&t.0);
        self.1.push(&t.1);
        self.2.push(&t.2);
        self.3.push(&t.3);
        self.4.push(&t.4);
        self.5.push(&t.5);
        self.6.push(&t.6);
        self.7.push(&t.7);
        self.8.push(&t.8);
        self.9.push(&t.9);
        proof {
            assert(self.model_seq() =~= old(self).model_seq().push(t.model()));
        }
    }

    fn clear(&mut self) {
        self.0.clear();
        self.1.clear();
        self.2.clear();
        self.3.clear();
        self.4.clear();
        self.5.clear();
        self.6.clear();
        self.7.clear();
        self.8.clear();
        self.9.clear();
        proof {
            assert(self.model_seq() =~= Seq::<(T0::Model, T1::Model, T2::Model, T3::Model, T4::Model, T5::Model, T6::Model, T7::Model, T8::Model, T9::Model)>::empty());
        }
    }

    fn good_bytes(&self) -> (n: usize) {
        let mut n = self.0.good_bytes();
        n = sat_add(n, self.1.good_bytes());
        n = sat_add(n, self.2.good_bytes());
        n = sat_add(n, self.3.good_bytes());
        n = sat_add(n, self.4.good_bytes());
        n = sat_add(n, self.5.good_bytes());
        n = sat_add(n, self.6.good_bytes());
        n = sat_add(n, self.7.good_bytes());
        n = sat_add(n, self.8.good_bytes());
        n = sat_add(n, self.9.good_bytes());
        n
    }
}

impl<T0: Data, T1: Data, T2: Data, T3: Data, T4: Data, T5: Data, T6: Data, T7: Data, T8: Data, T9: Data, T10: Data> Data for (T0, T1, T2, T3, T4, T5, T6, T7, T8, T9, T10) {
    type Col = (T0::Col, T1::Col, T2::Col, T3::Col, T4::Col, T5::Col, T6::Col, T7::Col, T8::Col, T9::Col, T10::Col);

    type Model = (T0::Model, T1::Model, T2::Model, T3::Model, T4::Model, T5::Model, T6::Model, T7::Model, T8::Model, T9::Model, T10::Model);

    open spec fn model(&self) -> (T0::Model, T1::Model, T2::Model, T3::Model, T4::Model, T5::Model, T6::Model, T7::Model, T8::Model, T9::Model, T10::Model) {
        (self.0.model(), self.1.model(), self.2.model(), self.3.model(), self.4.model(), self.5.model(), self.6.model(), self.7.model(), self.8.model(), self.9.model(), self.10.model())
    }

    open spec fn wf(&self) -> bool {
        self.0.wf() && self.1.wf() && self.2.wf() && self.3.wf() && self.4.wf() && self.5.wf() && self.6.wf() && self.7.wf() && self.8.wf() && self.9.wf() && self.10.wf()
    }
}

impl<T0: Data, T1: Data, T2: Data, T3: Data, T4: Data, T5: Data, T6: Data, T7: Data, T8: Data, T9: Data, T10: Data, C0: Col<T0>, C1: Col<T1>, C2: Col<T2>, C3: Col<T3>, C4: Col<T4>, C5: Col<T5>, C6: Col<T6>, C7: Col<T7>, C8: Col<T8>, C9: Col<T9>, C10: Col<T10>> Col<(T0, T1, T2, T3, T4, T5, T6, T7, T8, T9, T10)> for (C0, C1, C2, C3, C4, C5, C6, C7, C8, C9, C10) {
    open spec fn inv(&self) -> bool {
        &&& self.0.inv()
        &&& self.1.inv()
        &&& self.2.inv()
        &&& self.3.inv()
        &&& self.4.inv()
        &&& self.5.inv()
        &&& self.6.inv()
        &&& self.7.inv()
        &&& self.8.inv()
        &&& self.9.inv()
        &&& self.10.inv()
        &&& self.1.model_seq().len() == self.0.model_seq().len()
        &&& self.2.model_seq().len() == self.0.model_seq().len()
        &&& self.3.model_seq().len() == self.0.model_seq().len()
        &&& self.4.model_seq().len() == self.0.model_seq().len()
        &&& self.5.model_seq().len() == self.0.model_seq().len()
        &&& self.6.model_seq().len() == self.0.model_seq().len()
        &&& self.7.model_seq().len() == self.0.model_seq().len()
        &&& self.8.model_seq().len() == self.0.model_seq().len()
        &&& self.9.model_seq().len() == self.0.model_seq().len()
        &&& self.10.model_seq().len() == self.0.model_seq().len()
    }

    open spec fn model_seq(&self) -> Seq<(T0::Model, T1::Model, T2::Model, T3::Model, T4::Model, T5::Model, T6::Model, T7::Model, T8::Model, T9::Model, T10::Model)> {
        Seq::new(
            self.0.model_seq().len(),
            |i: int| (self.0.model_seq()[i], self.1.model_seq()[i], self.2.model_seq()[i], self.3.model_seq()[i], self.4.model_seq()[i], self.5.model_seq()[i], self.6.model_seq()[i], self.7.model_seq()[i], self.8.model_seq()[i], self.9.model_seq()[i], self.10.model_seq()[i]),
        )
    }

    open spec fn spec_good_bytes(&self) -> nat {
        self.0.spec_good_bytes() + self.1.spec_good_bytes() + self.2.spec_good_bytes() + self.3.spec_good_bytes() + self.4.spec_good_bytes() + self.5.spec_good_bytes() + self.6.spec_good_bytes() + self.7.spec_good_bytes() + self.8.spec_good_bytes() + self.9.spec_good_bytes() + self.10.spec_good_bytes()
    }

    fn new() -> (c: Self) {
        let c = (C0::new(), C1::new(), C2::new(), C3::new(), C4::new(), C5::new(), C6::new(), C7::new(), C8::new(), C9::new(), C10::new());
        proof {
            assert(c.model_seq() =~= Seq::<(T0::Model, T1::Model, T2::Model, T3::Model, T4::Model, T5::Model, T6::Model, T7::Model, T8::Model, T9::Model, T10::Model)>::empty());
        }
        c
    }

    fn len(&self) -> (n: usize) {
        self.0.len()
    }

    fn get(&self, idx: usize) -> (t: (T0, T1, T2, T3, T4, T5, T6, T7, T8, T9, T10)) {
        (self.0.get(idx), self.1.get(idx), self.2.get(idx), self.3.get(idx), self.4.get(idx), self.5.get(idx), self.6.get(idx), self.7.get(idx), self.8.get(idx), self.9.get(idx), self.10.get(idx))
    }

    fn push(&mut self, t: &(T0, T1, T2, T3, T4, T5, T6, T7, T8, T9, T10)) {
        self.0.push(&t.0);
        self.1.push(&t.1);
        self.2.push(&t.2);
        self.3.push(&t.3);
        self.4.push(&t.4);
        self.5.push(&t.5);
        self.6.push(&t.6);
        self.7.push(&t.7);
        self.8.push(&t.8);
        self.9.push(&t.9);
        self.10.push(&t.10);
        proof {
            assert(self.model_seq() =~= old(self).model_seq().push(t.model()));
        }
    }

    fn clear(&mut self) {
        self.0.clear();
        self.1.clear();
        self.2.clear();
        self.3.clear();
        self.4.clear();
        self.5.clear();
        self.6.clear();
        self.7.clear();
        self.8.clear();
        self.9.clear();
        self.10.clear();
        proof {
            assert(self.model_seq() =~= Seq::<(T0::Model, T1::Model, T2::Model, T3::Model, T4::Model, T5::Model, T6::Model, T7::Model, T8::Model, T9::Model, T10::Model)>::empty());
        }
    }

    fn good_bytes(&self) -> (n: usize) {
        let mut n = self.0.good_bytes();
        n = sat_add(n, self.1.good_bytes());
        n = sat_add(n, self.2.good_bytes());
        n = sat_add(n, self.3.good_bytes());
        n = sat_add(n, self.4.good_bytes());
        n = sat_add(n, self.5.good_bytes());
        n = sat_add(n, self.6.good_bytes());
        n = sat_add(n, self.7.good_bytes());
        n = sat_add(n, self.8.good_bytes());
        n = sat_add(n, self.9.good_bytes());
        n = sat_add(n, self.10.good_bytes());
        n
    }
}

impl<T0: Data, T1: Data, T2: Data, T3: Data, T4: Data, T5: Data, T6: Data, T7: Data, T8: Data, T9: Data, T10: Data, T11: Data> Data for (T0, T1, T2, T3, T4, T5, T6, T7, T8, T9, T10, T11) {
    type Col = (T0::Col, T1::Col, T2::Col, T3::Col, T4::Col, T5::Col, T6::Col, T7::Col, T8::Col, T9::Col, T10::Col, T11::Col);

    type Model = (T0::Model, T1::Model, T2::Model, T3::Model, T4::Model, T5::Model, T6::Model, T7::Model, T8::Model, T9::Model, T10::Model, T11::Model);

    open spec fn model(&self) -> (T0::Model, T1::Model, T2::Model, T3::Model, T4::Model, T5::Model, T6::Model, T7::Model, T8::Model, T9::Model, T10::Model, T11::Model) {
        (self.0.model(), self.1.model(), self.2.model(), self.3.model(), self.4.model(), self.5.model(), self.6.model(), self.7.model(), self.8.model(), self.9.model(), self.10.model(), self.11.model())
    }

    open spec fn wf(&self) -> bool {
        self.0.wf() && self.1.wf() && self.2.wf() && self.3.wf() && self.4.wf() && self.5.wf() && self.6.wf() && self.7.wf() && self.8.wf() && self.9.wf() && self.10.wf() && self.11.wf()
    }
}

impl<T0: Data, T1: Data, T2: Data, T3: Data, T4: Data, T5: Data, T6: Data, T7: Data, T8: Data, T9: Data, T10: Data, T11: Data, C0: Col<T0>, C1: Col<T1>, C2: Col<T2>, C3: Col<T3>, C4: Col<T4>, C5: Col<T5>, C6: Col<T6>, C7: Col<T7>, C8: Col<T8>, C9: Col<T9>, C10: Col<T10>, C11: Col<T11>> Col<(T0, T1, T2, T3, T4, T5, T6, T7, T8, T9, T10, T11)> for (C0, C1, C2, C3, C4, C5, C6, C7, C8, C9, C10, C11) {
    open spec fn inv(&self) -> bool {
        &&& self.0.inv()
        &&& self.1.inv()
        &&& self.2.inv()
        &&& self.3.inv()
        &&& self.4.inv()
        &&& self.5.inv()
        &&& self.6.inv()
        &&& self.7.inv()
        &&& self.8.inv()
        &&& self.9.inv()
        &&& self.10.inv()
        &&& self.11.inv()
        &&& self.1.model_seq().len() == self.0.model_seq().len()
        &&& self.2.model_seq().len() == self.0.model_seq().len()
        &&& self.3.model_seq().len() == self.0.model_seq().len()
        &&& self.4.model_seq().len() == self.0.model_seq().len()
        &&& self.5.model_seq().len() == self.0.model_seq().len()
        &&& self.6.model_seq().len() == self.0.model_seq().len()
        &&& self.7.model_seq().len() == self.0.model_seq().len()
        &&& self.8.model_seq().len() == self.0.model_seq().len()
        &&& self.9.model_seq().len() == self.0.model_seq().len()
        &&& self.10.model_seq().len() == self.0.model_seq().len()
        &&& self.11.model_seq().len() == self.0.model_seq().len()
    }

    open spec fn model_seq(&self) -> Seq<(T0::Model, T1::Model, T2::Model, T3::Model, T4::Model, T5::Model, T6::Model, T7::Model, T8::Model, T9::Model, T10::Model, T11::Model)> {
        Seq::new(
            self.0.model_seq().len(),
            |i: int| (self.0.model_seq()[i], self.1.model_seq()[i], self.2.model_seq()[i], self.3.model_seq()[i], self.4.model_seq()[i], self.5.model_seq()[i], self.6.model_seq()[i], self.7.model_seq()[i], self.8.model_seq()[i], self.9.model_seq()[i], self.10.model_seq()[i], self.11.model_seq()[i]),
        )
    }

    open spec fn spec_good_bytes(&self) -> nat {
        self.0.spec_good_bytes() + self.1.spec_good_bytes() + self.2.spec_good_bytes() + self.3.spec_good_bytes() + self.4.spec_good_bytes() + self.5.spec_good_bytes() + self.6.spec_good_bytes() + self.7.spec_good_bytes() + self.8.spec_good_bytes() + self.9.spec_good_bytes() + self.10.spec_good_bytes() + self.11.spec_good_bytes()
    }

    fn new() -> (c: Self) {
        let c = (C0::new(), C1::new(), C2::new(), C3::new(), C4::new(), C5::new(), C6::new(), C7::new(), C8::new(), C9::new(), C10::new(), C11::new());
        proof {
            assert(c.model_seq() =~= Seq::<(T0::Model, T1::Model, T2::Model, T3::Model, T4::Model, T5::Model, T6::Model, T7::Model, T8::Model, T9::Model, T10::Model, T11::Model)>::empty());
        }
        c
    }

    fn len(&self) -> (n: usize) {
        self.0.len()
    }

    fn get(&self, idx: usize) -> (t: (T0, T1, T2, T3, T4, T5, T6, T7, T8, T9, T10, T11)) {
        (self.0.get(idx), self.1.get(idx), self.2.get(idx), self.3.get(idx), self.4.get(idx), self.5.get(idx), self.6.get(idx), self.7.get(idx), self.8.get(idx), self.9.get(idx), self.10.get(idx), self.11.get(idx))
    }

    fn push(&mut self, t: &(T0, T1, T2, T3, T4, T5, T6, T7, T8, T9, T10, T11)) {
        self.0.push(&t.0);
        self.1.push(&t.1);
        self.2.push(&t.2);
        self.3.push(&t.3);
        self.4.push(&t.4);
        self.5.push(&t.5);
        self.6.push(&t.6);
        self.7.push(&t.7);
        self.8.push(&t.8);
        self.9.push(&t.9);
        self.10.push(&t.10);
        self.11.push(&t.11);
        proof {
            assert(self.model_seq() =~= old(self).model_seq().push(t.model()));
        }
    }

    fn clear(&mut self) {
        self.0.clear();
        self.1.clear();
        self.2.clear();
        self.3.clear();
        self.4.clear();
        self.5.clear();
        self.6.clear();
        self.7.clear();
        self.8.clear();
        self.9.clear();
        self.10.clear();
        self.11.clear();
        proof {
            assert(self.model_seq() =~= Seq::<(T0::Model, T1::Model, T2::Model, T3::Model, T4::Model, T5::Model, T6::Model, T7::Model, T8::Model, T9::Model, T10::Model, T11::Model)>::empty());
        }
    }

    fn good_bytes(&self) -> (n: usize) {
        let mut n = self.0.good_bytes();
        n = sat_add(n, self.1.good_bytes());
        n = sat_add(n, self.2.good_bytes());
        n = sat_add(n, self.3.good_bytes());
        n = sat_add(n, self.4.good_bytes());
        n = sat_add(n, self.5.good_bytes());
        n = sat_add(n, self.6.good_bytes());
        n = sat_add(n, self.7.good_bytes());
        n = sat_add(n, self.8.good_bytes());
        n = sat_add(n, self.9.good_bytes());
        n = sat_add(n, self.10.good_bytes());
        n = sat_add(n, self.11.good_bytes());
        n
    }
}

} // verus!
