//! Word dictionaries stored as two byte arrays: the serialized entries one
//! after the other, and a table of little-endian `u32` offsets, one per
//! entry, where each entry runs to the next offset (the last one to the
//! end of the data).

use vstd::prelude::*;

use byteorder::{ByteOrder, LittleEndian};

use crate::error::JPreprocessResult;
use crate::text::{slice_range, views};

verus! {

/// The kinds of self-contained dictionary that can be bundled for
/// tokenization and preprocessing.
#[derive(Clone, Copy, PartialEq, Eq, Debug, Structural)]
pub enum JPreprocessDictionaryKind {
    NaistJdic,
}

/// The little-endian value of the four bytes of `b` from position `i`.
pub open spec fn le_u32(b: Seq<u8>, i: int) -> u32 {
    (b[i] as int + b[i + 1] as int * 0x100 + b[i + 2] as int * 0x10000 + b[i + 3] as int * 0x1000000) as u32
}

/// Reads a little-endian `u32` from the first four bytes of `buf`
/// (`byteorder::LittleEndian::read_u32`, which panics on fewer than four
/// bytes and otherwise combines the first four bytes, least significant
/// first).
#[verifier::external_body]
fn read_u32_le(buf: &[u8]) -> (r: u32)
    requires
        buf@.len() >= 4,
    ensures
        r == le_u32(buf@, 0),
{
    LittleEndian::read_u32(buf)
}

/// The entries that `bincode::deserialize` reads from `data` as a list of
/// strings, or `None` where it fails.
pub uninterp spec fn bincode_strings(data: Seq<u8>) -> Option<Seq<Seq<char>>>;

/// Reads a list of strings with `bincode::deserialize` (default options);
/// the result is the one named by `bincode_strings`, a function of the
/// bytes alone. What that function is on given bytes is not stated here.
#[verifier::external_body]
fn deserialize_strings(data: &[u8]) -> (r: Option<Vec<String>>)
    ensures
        match r {
            Some(v) => bincode_strings(data@) == Some(views(v@)),
            None => bincode_strings(data@) is None,
        },
{
    bincode::deserialize::<Vec<String>>(data).ok()
}

/// The offsets of an offset table: one little-endian `u32` per four bytes.
pub open spec fn offsets_of(b: Seq<u8>) -> Seq<u32> {
    Seq::new(b.len() / 4, |i: int| le_u32(b, 4 * i))
}

/// A dictionary, as values.
pub struct DictionaryView {
    pub words: Seq<u8>,
    pub idx: Seq<u32>,
}

/// A dictionary: serialized entries and their offsets.
pub struct Dictionary {
    pub words_data: Vec<u8>,
    pub words_idx_data: Vec<u32>,
}

impl View for Dictionary {
    type V = DictionaryView;

    open spec fn view(&self) -> DictionaryView {
        DictionaryView { words: self.words_data@, idx: self.words_idx_data@ }
    }
}

/// Where entry `index` starts and ends, if there is such an entry.
pub open spec fn entry_range(d: DictionaryView, index: int) -> Option<(int, int)> {
    if 0 <= index < d.idx.len() {
        let curr = d.idx[index] as int;
        let next = if index + 1 < d.idx.len() {
            d.idx[index + 1] as int
        } else {
            d.words.len() as int
        };
        Some((curr, next))
    } else {
        None
    }
}

/// Whether entry `index`, if there is one, lies within the data.
pub open spec fn entry_ok(d: DictionaryView, index: int) -> bool {
    match entry_range(d, index) {
        Some((c, n)) => 0 <= c <= n <= d.words.len(),
        None => true,
    }
}

/// The bytes of entry `index`, if there is one.
pub open spec fn entry_bytes(d: DictionaryView, index: int) -> Option<Seq<u8>> {
    match entry_range(d, index) {
        Some((c, n)) => Some(d.words.subrange(c, n)),
        None => None,
    }
}

impl Dictionary {
    /// The dictionary of the entry data `words_data` and the offset table
    /// `idx_data` (as read from the two files).
    pub fn load(words_data: Vec<u8>, idx_data: &[u8]) -> (r: JPreprocessResult<Dictionary>)
        requires
            idx_data@.len() % 4 == 0,
        ensures
            r matches Ok(d) && d@ == (DictionaryView { words: words_data@, idx: offsets_of(idx_data@) }),
    {
        let mut idx: Vec<u32> = Vec::new();
        let n = idx_data.len() / 4;
        let mut i: usize = 0;
        while i < n
            invariant
                n == idx_data@.len() / 4,
                idx_data@.len() % 4 == 0,
                i <= n,
                idx@ == offsets_of(idx_data@).take(i as int),
            decreases n - i,
        {
            let len = idx_data.len();
            assert(4 * i + 4 <= len) by (nonlinear_arith)
                requires
                    i < n,
                    n == len / 4,
            ;
            let chunk = &idx_data[4 * i..4 * i + 4];
            let v = read_u32_le(chunk);
            proof {
                assert(chunk@ == idx_data@.subrange(4 * i, 4 * i + 4));
                assert(le_u32(chunk@, 0) == le_u32(idx_data@, 4 * i));
            }
            idx.push(v);
            proof {
                assert(idx@ =~= offsets_of(idx_data@).take(i as int + 1));
            }
            i = i + 1;
        }
        proof {
            assert(offsets_of(idx_data@).take(i as int) =~= offsets_of(idx_data@));
        }
        Ok(Dictionary { words_data, words_idx_data: idx })
    }

    /// The bytes of entry `index`, if there is one.
    pub fn get(&self, index: usize) -> (r: Option<&[u8]>)
        requires
            entry_ok(self@, index as int),
        ensures
            match r {
                Some(b) => entry_bytes(self@, index as int) == Some(b@),
                None => entry_bytes(self@, index as int) is None,
            },
    {
        if index >= self.words_idx_data.len() {
            return None;
        }
        let curr = self.words_idx_data[index] as usize;
        let next = if index + 1 < self.words_idx_data.len() {
            self.words_idx_data[index + 1] as usize
        } else {
            self.words_data.len()
        };
        Some(slice_range(&self.words_data, curr, next))
    }

    /// Whether every entry lies within the data.
    pub fn is_well_formed(&self) -> (r: bool)
        ensures
            r == forall|i: int| #[trigger] entry_ok(self@, i),
    {
        let n = self.words_idx_data.len();
        let mut i: usize = 0;
        while i < n
            invariant
                n == self@.idx.len(),
                i <= n,
                forall|j: int| 0 <= j < i ==> #[trigger] entry_ok(self@, j),
            decreases n - i,
        {
            let curr = self.words_idx_data[i] as usize;
            let next = if i + 1 < n {
                self.words_idx_data[i + 1] as usize
            } else {
                self.words_data.len()
            };
            if !(curr <= next && next <= self.words_data.len()) {
                assert(!entry_ok(self@, i as int));
                return false;
            }
            i = i + 1;
        }
        assert forall|j: int| #[trigger] entry_ok(self@, j) by {
            if 0 <= j < n {
            }
        }
        true
    }
}

/// A dictionary whose entries are lists of strings (the fields of a
/// dictionary line).
pub struct LinderaDict(pub Dictionary);

impl LinderaDict {
    /// The dictionary of the entry data and offset table (as read from
    /// `dict.words` and `dict.wordsidx`).
    pub fn load(words_data: Vec<u8>, idx_data: &[u8]) -> (r: JPreprocessResult<Dictionary>)
        requires
            idx_data@.len() % 4 == 0,
        ensures
            r matches Ok(d) && d@ == (DictionaryView { words: words_data@, idx: offsets_of(idx_data@) }),
    {
        Dictionary::load(words_data, idx_data)
    }

    /// The fields of entry `index`, if there is one and it reads as a list
    /// of strings.
    pub fn get(&self, index: usize) -> (r: Option<Vec<String>>)
        requires
            entry_ok(self.0@, index as int),
        ensures
            match r {
                Some(v) => (entry_bytes(self.0@, index as int) matches Some(b) && bincode_strings(b) == Some(views(v@))),
                None => match entry_bytes(self.0@, index as int) {
                    Some(b) => bincode_strings(b) is None,
                    None => true,
                },
            },
    {
        match self.0.get(index) {
            Some(data) => deserialize_strings(data),
            None => None,
        }
    }
}

/// A dictionary whose entries are serialized word details.
pub struct JPreprocessDict(pub Dictionary);

impl JPreprocessDict {
    /// The dictionary of the entry data and offset table (as read from
    /// `jpreprocess.words` and `jpreprocess.wordsidx`).
    pub fn load(words_data: Vec<u8>, idx_data: &[u8]) -> (r: JPreprocessResult<Dictionary>)
        requires
            idx_data@.len() % 4 == 0,
        ensures
            r matches Ok(d) && d@ == (DictionaryView { words: words_data@, idx: offsets_of(idx_data@) }),
    {
        Dictionary::load(words_data, idx_data)
    }
}

} // verus!

verus! {

/// What a dictionary loaded from entry data and an offset table gives
/// back: entry `i` is the bytes from its offset to the next offset (or to
/// the end of the data), and there is no entry past the table.
pub proof fn lemma_loaded_entry(words: Seq<u8>, idx_bytes: Seq<u8>, i: int)
    requires
        idx_bytes.len() % 4 == 0,
    ensures
        ({
            let d = DictionaryView { words: words, idx: offsets_of(idx_bytes) };
            &&& 0 <= i < idx_bytes.len() / 4 ==> entry_range(d, i) == Some(
                (
                    le_u32(idx_bytes, 4 * i) as int,
                    if i + 1 < idx_bytes.len() / 4 {
                        le_u32(idx_bytes, 4 * (i + 1)) as int
                    } else {
                        words.len() as int
                    },
                ),
            )
            &&& !(0 <= i < idx_bytes.len() / 4) ==> entry_bytes(d, i) is None
        }),
{
}

} // verus!

verus! {

/// A dictionary whose entries read as values of `StoredType`.
pub trait DictionaryTrait {
    type StoredType;

    /// Whether entry `index` can be looked up (the lookup reads within the
    /// data).
    spec fn can_get(&self, index: int) -> bool;

    /// Whether `r` is what looking up entry `index` gives.
    spec fn gives(&self, index: int, r: Option<Self::StoredType>) -> bool;

    /// Entry `index`, if there is one and it reads as a value.
    fn get(&self, index: usize) -> (r: Option<Self::StoredType>)
        requires
            self.can_get(index as int),
        ensures
            self.gives(index as int, r),
    ;

    /// The entries in order, from the first.
    fn iter(&self) -> (r: DictionaryIter<'_, Self>) where Self: Sized
        ensures
            r.dict == self,
            r.index == 0,
    ;
}

/// Goes through the entries of a dictionary in order.
pub struct DictionaryIter<'a, K> {
    pub dict: &'a K,
    pub index: usize,
}

impl<'a, K: DictionaryTrait> DictionaryIter<'a, K> {
    /// Starts at the first entry of `dict`.
    pub fn new(dict: &'a K) -> (r: Self)
        ensures
            r.dict == dict,
            r.index == 0,
    {
        DictionaryIter { dict, index: 0 }
    }

    /// The entry at the current position, and moves to the next one; past
    /// the last entry every call gives what the dictionary gives there.
    pub fn next(&mut self) -> (r: Option<K::StoredType>)
        requires
            old(self).index < usize::MAX,
            old(self).dict.can_get(old(self).index as int),
        ensures
            final(self).dict == old(self).dict,
            final(self).index == old(self).index + 1,
            old(self).dict.gives(old(self).index as int, r),
    {
        self.index = self.index + 1;
        self.dict.get(self.index - 1)
    }
}

/// What looking up entry `index` of `d` as a list of strings gives.
pub open spec fn strings_entry(d: DictionaryView, index: int, r: Option<Seq<Seq<char>>>) -> bool {
    match r {
        Some(v) => entry_bytes(d, index) matches Some(b) && bincode_strings(b) == Some(v),
        None => match entry_bytes(d, index) {
            Some(b) => bincode_strings(b) is None,
            None => true,
        },
    }
}

/// A lindera dictionary: entries are lists of strings.
pub struct LinderaDictionary(pub Dictionary);

impl DictionaryTrait for LinderaDictionary {
    type StoredType = Vec<String>;

    open spec fn can_get(&self, index: int) -> bool {
        entry_ok(self.0@, index)
    }

    open spec fn gives(&self, index: int, r: Option<Vec<String>>) -> bool {
        strings_entry(
            self.0@,
            index,
            match r {
                Some(v) => Some(views(v@)),
                None => None,
            },
        )
    }

    /// The fields of entry `index`, if there is one and it reads as a list
    /// of strings.
    fn get(&self, index: usize) -> (r: Option<Vec<String>>) {
        match self.0.get(index) {
            Some(data) => deserialize_strings(data),
            None => None,
        }
    }

    fn iter(&self) -> (r: DictionaryIter<'_, Self>) {
        DictionaryIter { dict: self, index: 0 }
    }
}

} // verus!
