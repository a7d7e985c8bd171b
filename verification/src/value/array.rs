//! The runtime's ordered array: entries in the order in which they were
//! made, each under an integer or a string key, walked with a cursor.

use vstd::prelude::*;

use crate::sys::{HASH_KEY_IS_LONG, HASH_KEY_IS_STRING, HASH_KEY_NON_EXISTENT, HT_MIN_SIZE};
use crate::value::Value;

verus! {

/// The key of an entry.
pub enum ArrayKey {
    Int(i64),
    String(String),
}

/// What a key is: an integer, or the text of a string.
pub enum KeyView {
    Int(i64),
    String(Seq<char>),
}

impl View for ArrayKey {
    type V = KeyView;

    open spec fn view(&self) -> KeyView {
        match self {
            ArrayKey::Int(n) => KeyView::Int(*n),
            ArrayKey::String(s) => KeyView::String(s@),
        }
    }
}

impl ArrayKey {
    /// Whether two keys are the same key.
    pub fn same(&self, other: &ArrayKey) -> (r: bool)
        ensures
            r == (self@ == other@),
    {
        match (self, other) {
            (ArrayKey::Int(a), ArrayKey::Int(b)) => *a == *b,
            (ArrayKey::String(a), ArrayKey::String(b)) => *a == *b,
            _ => false,
        }
    }

    /// A copy of the key.
    pub fn duplicate(&self) -> (r: ArrayKey)
        ensures
            r == *self,
    {
        match self {
            ArrayKey::Int(n) => ArrayKey::Int(*n),
            ArrayKey::String(s) => ArrayKey::String(s.clone()),
        }
    }

    /// The key as text: an integer as `i64` prints itself, a string as it
    /// is.
    pub fn to_string(&self) -> (text: String)
        ensures
            match *self {
                ArrayKey::Int(n) => vstd::string::to_string_from_display_ensures::<i64>(&n, text),
                ArrayKey::String(s) => text@ == s@,
            },
    {
        match self {
            ArrayKey::Int(n) => n.to_string(),
            ArrayKey::String(s) => s.clone(),
        }
    }

    /// The key kind that the cursor reports for this key.
    pub open spec fn kind(self) -> i32 {
        match self {
            ArrayKey::Int(_) => HASH_KEY_IS_LONG,
            ArrayKey::String(_) => HASH_KEY_IS_STRING,
        }
    }
}

/// One entry of an array.
pub struct Entry {
    pub key: ArrayKey,
    pub value: Value,
}

/// `at` is the place of the entry of `entries` under `key`, or their number
/// where none of them has the key.
pub open spec fn is_place_of(entries: Seq<Entry>, key: KeyView, at: int) -> bool {
    &&& 0 <= at <= entries.len()
    &&& forall|i: int| 0 <= i < at ==> (#[trigger] entries[i]).key@ != key
    &&& at < entries.len() ==> entries[at].key@ == key
}

/// The place of the first entry under `key`, or the number of entries where
/// none of them has the key.
pub open spec fn place_of(entries: Seq<Entry>, key: KeyView) -> int {
    choose|at: int| is_place_of(entries, key, at)
}

/// What an array holds after `entry` was put into it: the entry stands where
/// its key stood before, or at the end where the key is new.
pub open spec fn put(entries: Seq<Entry>, entry: Entry) -> Seq<Entry> {
    let at = place_of(entries, entry.key@);
    if at < entries.len() {
        entries.update(at, entry)
    } else {
        entries.push(entry)
    }
}

/// There is such a place, so `place_of` is one.
pub proof fn lemma_place_of(entries: Seq<Entry>, key: KeyView)
    ensures
        is_place_of(entries, key, place_of(entries, key)),
    decreases entries.len(),
{
    if entries.len() == 0 {
        assert(is_place_of(entries, key, 0));
    } else {
        let front = entries.drop_last();
        lemma_place_of(front, key);
        let at = place_of(front, key);
        assert forall|i: int| 0 <= i < at implies (#[trigger] entries[i]).key@ != key by {
            assert(entries[i] == front[i]);
        }
        if at < front.len() {
            assert(entries[at] == front[at]);
            assert(is_place_of(entries, key, at));
        } else if entries.last().key@ == key {
            assert(is_place_of(entries, key, at));
        } else {
            assert(is_place_of(entries, key, entries.len() as int));
        }
    }
}

/// There is one such place only.
pub proof fn lemma_place_of_unique(entries: Seq<Entry>, key: KeyView, at: int)
    requires
        is_place_of(entries, key, at),
    ensures
        place_of(entries, key) == at,
{
    let p = place_of(entries, key);
    assert(is_place_of(entries, key, p));
    if p < at {
        assert(entries[p].key@ != key);
    } else if at < p {
        assert(entries[at].key@ != key);
    }
}

/// Putting an entry under a key that the array holds keeps the number of
/// entries and the place of the key; under a new key the entry comes last.
/// Every other entry stays where it was.
pub proof fn lemma_put(entries: Seq<Entry>, entry: Entry)
    ensures
        place_of(entries, entry.key@) < entries.len() ==> put(entries, entry).len()
            == entries.len(),
        place_of(entries, entry.key@) == entries.len() ==> put(entries, entry).len()
            == entries.len() + 1,
        put(entries, entry)[place_of(entries, entry.key@)] == entry,
        forall|i: int|
            0 <= i < entries.len() && i != place_of(entries, entry.key@) ==> put(entries, entry)[i]
                == entries[i],
        distinct_keys(entries) ==> distinct_keys(put(entries, entry)),
{
    lemma_place_of(entries, entry.key@);
}

/// No two entries have the same key.
pub open spec fn distinct_keys(entries: Seq<Entry>) -> bool {
    forall|i: int, j: int|
        0 <= i < j < entries.len() ==> (#[trigger] entries[i]).key@ != (#[trigger] entries[j]).key@
}

/// An ordered array of the runtime.
pub struct Array {
    entries: Vec<Entry>,
}

impl View for Array {
    type V = Seq<Entry>;

    closed spec fn view(&self) -> Seq<Entry> {
        self.entries@
    }
}

impl Array {
    #[verifier::type_invariant]
    spec fn inv(self) -> bool {
        &&& self.entries@.len() <= u32::MAX
        &&& distinct_keys(self.entries@)
    }

    /// An empty array with the default capacity hint.
    pub fn new() -> (array: Array)
        ensures
            array@ == Seq::<Entry>::empty(),
    {
        Array::with_capacity(HT_MIN_SIZE)
    }

    /// An empty array with room for `capacity` entries.
    pub fn with_capacity(capacity: u32) -> (array: Array)
        ensures
            array@ == Seq::<Entry>::empty(),
    {
        Array { entries: Vec::with_capacity(capacity as usize) }
    }

    /// The number of entries. No two of them have the same key.
    pub fn len(&self) -> (n: usize)
        ensures
            n == self@.len(),
            n <= u32::MAX,
            distinct_keys(self@),
    {
        proof {
            use_type_invariant(self);
        }
        self.entries.len()
    }

    /// Whether the array has no entry.
    pub fn is_empty(&self) -> (r: bool)
        ensures
            r == (self@.len() == 0),
    {
        self.len() == 0
    }

    /// Puts `value` under `key`: in place of the value that the key had, or
    /// as the last entry where the key is new. An array that is full and
    /// does not hold the key stays as it is, and the result is `false`.
    pub fn insert(&mut self, key: ArrayKey, value: Value) -> (done: bool)
        ensures
            done == (place_of(old(self)@, key@) < old(self)@.len() || old(self)@.len() < u32::MAX),
            done ==> final(self)@ == put(old(self)@, (Entry { key, value })),
            !done ==> final(self)@ == old(self)@,
    {
        proof {
            use_type_invariant(&*self);
        }
        let mut taken = Array { entries: Vec::new() };
        core::mem::swap(self, &mut taken);
        let Array { mut entries } = taken;
        let mut at: usize = 0;
        while at < entries.len() && !entries[at].key.same(&key)
            invariant
                at <= entries@.len(),
                forall|i: int| 0 <= i < at ==> (#[trigger] entries@[i]).key@ != key@,
            decreases entries@.len() - at,
        {
            at += 1;
        }
        proof {
            lemma_place_of_unique(entries@, key@, at as int);
        }
        let done = if at < entries.len() {
            entries[at] = Entry { key, value };
            true
        } else if entries.len() < u32::MAX as usize {
            entries.push(Entry { key, value });
            true
        } else {
            false
        };
        *self = Array { entries };
        done
    }

    /// The kind of the key under the cursor, or that there is no entry
    /// there.
    fn get_current_key_type(&self, pos: u32) -> (kind: i32)
        ensures
            kind == if pos < self@.len() {
                self@[pos as int].key.kind()
            } else {
                HASH_KEY_NON_EXISTENT
            },
    {
        if (pos as usize) < self.entries.len() {
            match &self.entries[pos as usize].key {
                ArrayKey::Int(_) => HASH_KEY_IS_LONG,
                ArrayKey::String(_) => HASH_KEY_IS_STRING,
            }
        } else {
            HASH_KEY_NON_EXISTENT
        }
    }

    /// The key under the cursor.
    fn get_current_key(&self, pos: u32) -> (key: ArrayKey)
        requires
            pos < self@.len(),
        ensures
            key == self@[pos as int].key,
    {
        self.entries[pos as usize].key.duplicate()
    }

    /// The value under the cursor.
    fn get_current_data(&self, pos: u32) -> (value: &Value)
        requires
            pos < self@.len(),
        ensures
            *value == self@[pos as int].value,
    {
        &self.entries[pos as usize].value
    }

    /// Moves the cursor to the next entry; a cursor behind the last entry
    /// stays.
    fn move_forward(&self, pos: &mut u32)
        ensures
            *final(pos) == if *old(pos) < self@.len() {
                *old(pos) + 1
            } else {
                *old(pos) as int
            },
    {
        proof {
            use_type_invariant(self);
        }
        if (*pos as usize) < self.entries.len() {
            *pos = *pos + 1;
        }
    }

    /// A cursor at the first entry.
    pub fn iter(&self) -> (iter: ArrayIter<'_>)
        ensures
            iter.array() == *self,
            iter.position() == 0,
            iter.remaining() == self@,
    {
        assert(self@.skip(0) =~= self@);
        ArrayIter::new(self)
    }
}

/// A cursor over an array. It hands out each entry once, from the first to
/// the last, with the count of the entries handed out before it. The cursor
/// borrows the array: while one is alive the array does not change, and
/// several cursors walk one array independently.
pub struct ArrayIter<'a> {
    ptr: &'a Array,
    idx: u64,
    pos: u32,
}

impl<'a> ArrayIter<'a> {
    #[verifier::type_invariant]
    spec fn inv(self) -> bool {
        &&& self.idx == self.pos
        &&& self.pos <= self.ptr@.len()
    }

    /// The array that the cursor walks.
    pub closed spec fn array(self) -> Array {
        *self.ptr
    }

    /// The number of entries handed out so far, which is the place of the
    /// entry that comes next.
    pub closed spec fn position(self) -> nat {
        self.pos as nat
    }

    /// The entries that are still to come.
    pub open spec fn remaining(self) -> Seq<Entry> {
        self.array()@.skip(self.position() as int)
    }

    pub fn new(ptr: &'a Array) -> (iter: Self)
        ensures
            iter.array() == *ptr,
            iter.position() == 0,
    {
        Self { ptr, idx: 0, pos: 0 }
    }

    /// The next entry: its sequential index, its key and its value. `None`
    /// once every entry was handed out.
    pub fn next(&mut self) -> (item: Option<(u64, ArrayKey, &'a Value)>)
        ensures
            final(self).array() == old(self).array(),
            old(self).remaining().len() == 0 ==> item is None,
            old(self).remaining().len() == 0 ==> final(self).position() == old(self).position(),
            old(self).remaining().len() > 0 ==> item is Some,
            old(self).remaining().len() > 0 ==> final(self).position() == old(self).position() + 1,
            item matches Some((idx, key, value)) ==> {
                &&& idx == old(self).position()
                &&& key == old(self).remaining()[0].key
                &&& *value == old(self).remaining()[0].value
            },
    {
        proof {
            use_type_invariant(&*self);
        }
        let key_type = self.ptr.get_current_key_type(self.pos);

        if key_type == HASH_KEY_NON_EXISTENT {
            return None;
        }
        let key = self.ptr.get_current_key(self.pos);
        let value = self.ptr.get_current_data(self.pos);
        let item = (self.idx, key, value);

        let mut pos = self.pos;
        self.ptr.move_forward(&mut pos);
        *self = ArrayIter { ptr: self.ptr, idx: self.idx + 1, pos };

        Some(item)
    }

    /// Every entry that is still to come, in order, each with its
    /// sequential index.
    pub fn collect(self) -> (items: Vec<(u64, ArrayKey, &'a Value)>)
        ensures
            items@.len() == self.remaining().len(),
            forall|i: int|
                0 <= i < items@.len() ==> {
                    &&& (#[trigger] items@[i]).0 == self.position() + i
                    &&& items@[i].1 == self.remaining()[i].key
                    &&& *items@[i].2 == self.remaining()[i].value
                },
    {
        let ghost start = self;
        let mut iter = self;
        proof {
            use_type_invariant(&iter);
        }
        let mut items: Vec<(u64, ArrayKey, &'a Value)> = Vec::new();
        loop
            invariant
                iter.array() == start.array(),
                start.position() <= iter.position() <= start.array()@.len(),
                items@.len() == iter.position() - start.position(),
                forall|i: int|
                    0 <= i < items@.len() ==> {
                        &&& (#[trigger] items@[i]).0 == start.position() + i
                        &&& items@[i].1 == start.remaining()[i].key
                        &&& *items@[i].2 == start.remaining()[i].value
                    },
            ensures
                iter.position() == start.array()@.len(),
            decreases start.array()@.len() - iter.position(),
        {
            match iter.next() {
                Some(item) => {
                    items.push(item);
                },
                None => {
                    break ;
                },
            }
        }
        items
    }
}

} // verus!
