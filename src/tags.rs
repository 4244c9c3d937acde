use vstd::prelude::*;
use vstd::string::*;
use crate::error::LibraryError;
use crate::extension::{is_flac_name, is_flac_path};
use crate::framing::{check_metadata_framing, metadata_framed};
use crate::outside::{comment_block, comment_block_readable, read_comment_block};

verus! {

/// The text placed between the values of one key.
pub open spec fn separator() -> Seq<char> {
    seq![';', ' ']
}

/// The values joined in order, with the separator between neighbours.
pub open spec fn joined(vs: Seq<Seq<char>>) -> Seq<char>
    decreases vs.len(),
{
    if vs.len() == 0 {
        Seq::empty()
    } else if vs.len() == 1 {
        vs[0]
    } else {
        joined(vs.drop_last()) + separator() + vs.last()
    }
}

/// No key occurs twice.
pub open spec fn keys_distinct<V>(s: Seq<(Seq<char>, V)>) -> bool {
    forall|i: int, j: int| 0 <= i < j < s.len() ==> #[trigger] s[i].0 != #[trigger] s[j].0
}

/// The map that a sequence of key and value pairs describes.
pub open spec fn pairs_to_map<V>(s: Seq<(Seq<char>, V)>) -> Map<Seq<char>, V>
    decreases s.len(),
{
    if s.len() == 0 {
        Map::empty()
    } else {
        pairs_to_map(s.drop_last()).insert(s.last().0, s.last().1)
    }
}

/// The view of a list of strings.
pub open spec fn strings_view(v: Seq<String>) -> Seq<Seq<char>> {
    v.map_values(|s: String| s@)
}

/// The view of comment entries: each key with its values.
pub open spec fn comments_view(v: Seq<(String, Vec<String>)>) -> Seq<(Seq<char>, Seq<Seq<char>>)> {
    v.map_values(|e: (String, Vec<String>)| (e.0@, strings_view(e.1@)))
}

/// Each key's values flattened into one string.
pub open spec fn flattened(s: Seq<(Seq<char>, Seq<Seq<char>>)>) -> Seq<(Seq<char>, Seq<char>)> {
    s.map_values(|e: (Seq<char>, Seq<Seq<char>>)| (e.0, joined(e.1)))
}

/// A comment dictionary with each key's values flattened into one string.
pub open spec fn joined_map(m: Map<Seq<char>, Seq<Seq<char>>>) -> Map<Seq<char>, Seq<char>> {
    m.map_values(|vs: Seq<Seq<char>>| joined(vs))
}

/// The tags of a file, as its comment block gives them.
pub open spec fn tags_of(c: Option<Map<Seq<char>, Seq<Seq<char>>>>) -> Map<Seq<char>, Seq<char>> {
    match c {
        Some(m) => joined_map(m),
        None => Map::empty(),
    }
}

/// With distinct keys, each pair's key maps to that pair's value.
pub proof fn lemma_pairs_to_map_index<V>(s: Seq<(Seq<char>, V)>, i: int)
    requires
        keys_distinct(s),
        0 <= i < s.len(),
    ensures
        pairs_to_map(s).contains_key(s[i].0),
        pairs_to_map(s)[s[i].0] == s[i].1,
    decreases s.len(),
{
    if i < s.len() - 1 {
        let t = s.drop_last();
        assert(t[i] == s[i]);
        assert(keys_distinct(t)) by {
            assert forall|a: int, b: int| 0 <= a < b < t.len() implies t[a].0 != t[b].0 by {
                assert(t[a] == s[a] && t[b] == s[b]);
            }
        }
        lemma_pairs_to_map_index(t, i);
        assert(s[i].0 != s[s.len() - 1].0);
    }
}

/// A key that no pair carries is not in the map.
pub proof fn lemma_pairs_to_map_absent<V>(s: Seq<(Seq<char>, V)>, k: Seq<char>)
    requires
        forall|i: int| 0 <= i < s.len() ==> #[trigger] s[i].0 != k,
    ensures
        !pairs_to_map(s).contains_key(k),
    decreases s.len(),
{
    if s.len() > 0 {
        let t = s.drop_last();
        assert forall|i: int| 0 <= i < t.len() implies #[trigger] t[i].0 != k by {
            assert(t[i] == s[i]);
        }
        lemma_pairs_to_map_absent(t, k);
    }
}

/// Flattening the values of the pairs flattens the values of their map.
pub proof fn lemma_pairs_to_map_flattened(s: Seq<(Seq<char>, Seq<Seq<char>>)>)
    ensures
        pairs_to_map(flattened(s)) == joined_map(pairs_to_map(s)),
    decreases s.len(),
{
    if s.len() > 0 {
        let t = s.drop_last();
        assert(flattened(s).drop_last() =~= flattened(t));
        lemma_pairs_to_map_flattened(t);
        assert(pairs_to_map(flattened(s)) =~= joined_map(pairs_to_map(s)));
    } else {
        assert(pairs_to_map(flattened(s)) =~= joined_map(pairs_to_map(s)));
    }
}

/// Joins `values` in their order with `; ` between neighbours.
pub fn join_values(values: &Vec<String>) -> (r: String)
    ensures
        r@ == joined(strings_view(values@)),
{
    let mut out = String::new();
    let mut i: usize = 0;
    while i < values.len()
        invariant
            0 <= i <= values.len(),
            out@ == joined(strings_view(values@).take(i as int)),
        decreases values.len() - i,
    {
        proof {
            reveal_strlit("; ");
            let vs = strings_view(values@);
            assert(vs.take(i as int + 1).drop_last() =~= vs.take(i as int));
        }
        if i > 0 {
            out.append("; ");
        }
        out.append(values[i].as_str());
        i = i + 1;
    }
    assert(strings_view(values@).take(values.len() as int) =~= strings_view(values@));
    out
}

/// A set of tags: each key with one value.
#[derive(Clone, Debug)]
pub struct TagSet {
    entries: Vec<(String, String)>,
}

impl View for TagSet {
    type V = Map<Seq<char>, Seq<char>>;

    open spec fn view(&self) -> Map<Seq<char>, Seq<char>> {
        pairs_to_map(self.entries_view())
    }
}

impl TagSet {
    /// The entries, in the order in which they were added.
    pub closed spec fn entries_view(&self) -> Seq<(Seq<char>, Seq<char>)> {
        self.entries@.map_values(|e: (String, String)| (e.0@, e.1@))
    }

    /// Keys are unique.
    pub closed spec fn wf(&self) -> bool {
        keys_distinct(self.entries_view())
    }

    /// A set with no tags.
    pub fn new() -> (r: TagSet)
        ensures
            r.wf(),
            r@ == Map::<Seq<char>, Seq<char>>::empty(),
            r.entries_view().len() == 0,
    {
        let r = TagSet { entries: Vec::new() };
        assert(r.entries_view() =~= Seq::empty());
        r
    }

    /// The number of keys.
    pub fn len(&self) -> (r: usize)
        requires
            self.wf(),
        ensures
            r == self.entries_view().len(),
            r == self@.dom().len(),
    {
        proof {
            self.lemma_dom();
        }
        self.entries.len()
    }

    /// The keys are those of the entries, and there are as many.
    pub proof fn lemma_dom(&self)
        requires
            self.wf(),
        ensures
            self@.dom().finite(),
            self@.dom().len() == self.entries_view().len(),
    {
        let s = self.entries_view();
        lemma_distinct_dom_len(s);
    }

    /// Every key with its value, in the order in which they were added.
    pub fn pairs(&self) -> (r: Vec<(String, String)>)
        ensures
            r@.map_values(|e: (String, String)| (e.0@, e.1@)) == self.entries_view(),
    {
        let mut out: Vec<(String, String)> = Vec::new();
        let mut i: usize = 0;
        while i < self.entries.len()
            invariant
                0 <= i <= self.entries.len(),
                out@.len() == i,
                forall|j: int| 0 <= j < i ==> (#[trigger] out@[j]).0@ == self.entries@[j].0@
                    && out@[j].1@ == self.entries@[j].1@,
            decreases self.entries.len() - i,
        {
            out.push((self.entries[i].0.clone(), self.entries[i].1.clone()));
            i = i + 1;
        }
        assert(out@.map_values(|e: (String, String)| (e.0@, e.1@)) =~= self.entries_view());
        out
    }

    /// The value of `key`, if the set has it.
    pub fn get(&self, key: &str) -> (r: Option<String>)
        requires
            self.wf(),
        ensures
            r is Some <==> self@.contains_key(key@),
            r is Some ==> r.unwrap()@ == self@[key@],
    {
        let mut i: usize = 0;
        while i < self.entries.len()
            invariant
                self.wf(),
                0 <= i <= self.entries.len(),
                forall|j: int| 0 <= j < i ==> #[trigger] self.entries_view()[j].0 != key@,
            decreases self.entries.len() - i,
        {
            if string_eq(self.entries[i].0.as_str(), key) {
                proof {
                    lemma_pairs_to_map_index(self.entries_view(), i as int);
                }
                return Some(self.entries[i].1.clone());
            }
            i = i + 1;
        }
        proof {
            lemma_pairs_to_map_absent(self.entries_view(), key@);
        }
        None
    }
}

/// The domain of the map of pairs with distinct keys has one key per pair.
pub proof fn lemma_distinct_dom_len<V>(s: Seq<(Seq<char>, V)>)
    requires
        keys_distinct(s),
    ensures
        pairs_to_map(s).dom().finite(),
        pairs_to_map(s).dom().len() == s.len(),
    decreases s.len(),
{
    if s.len() > 0 {
        let t = s.drop_last();
        assert(keys_distinct(t)) by {
            assert forall|a: int, b: int| 0 <= a < b < t.len() implies t[a].0 != t[b].0 by {
                assert(t[a] == s[a] && t[b] == s[b]);
            }
        }
        lemma_distinct_dom_len(t);
        assert forall|i: int| 0 <= i < t.len() implies #[trigger] t[i].0 != s.last().0 by {
            assert(t[i] == s[i]);
        }
        lemma_pairs_to_map_absent(t, s.last().0);
    }
}

/// Whether two strings hold the same characters.
fn string_eq(a: &str, b: &str) -> (r: bool)
    ensures
        r == (a@ == b@),
{
    let n = a.unicode_len();
    if n != b.unicode_len() {
        return false;
    }
    let mut i: usize = 0;
    while i < n
        invariant
            n == a@.len() == b@.len(),
            0 <= i <= n,
            forall|j: int| 0 <= j < i ==> a@[j] == b@[j],
        decreases n - i,
    {
        if a.get_char(i) != b.get_char(i) {
            return false;
        }
        i = i + 1;
    }
    assert(a@ =~= b@);
    true
}

/// Builds the tag set of a comment block: one entry per key, whose value is
/// the key's values joined with `; ` in their order. No block gives no tags.
pub fn tags_from_comments(comments: Option<Vec<(String, Vec<String>)>>) -> (r: TagSet)
    requires
        comments matches Some(v) ==> keys_distinct(comments_view(v@)),
    ensures
        r.wf(),
        comments is None ==> r@ == Map::<Seq<char>, Seq<char>>::empty(),
        comments matches Some(v) ==> {
            &&& r.entries_view() == flattened(comments_view(v@))
            &&& r@ == joined_map(pairs_to_map(comments_view(v@)))
        },
{
    match comments {
        None => TagSet::new(),
        Some(v) => {
            let ghost cv = comments_view(v@);
            let mut entries: Vec<(String, String)> = Vec::new();
            let mut i: usize = 0;
            while i < v.len()
                invariant
                    cv == comments_view(v@),
                    keys_distinct(cv),
                    0 <= i <= v.len(),
                    entries@.len() == i,
                    forall|j: int| 0 <= j < i ==> (#[trigger] entries@[j]).0@ == cv[j].0
                        && entries@[j].1@ == joined(cv[j].1),
                decreases v.len() - i,
            {
                let key = v[i].0.clone();
                let value = join_values(&v[i].1);
                entries.push((key, value));
                i = i + 1;
            }
            let r = TagSet { entries };
            assert(r.entries_view() =~= flattened(cv));
            proof {
                lemma_pairs_to_map_flattened(cv);
            }
            r
        },
    }
}

/// Reads the tags of the FLAC file named `path`, whose contents are `bytes`.
///
/// A name without the `flac` extension is refused before anything is parsed;
/// metadata that is not framed soundly, or that cannot be read, is a format
/// error; a file without a comment block has no tags. Keys come back as the
/// comment block's reader gives them, which is in upper case.
pub fn read_tags(path: &str, bytes: &[u8]) -> (r: Result<TagSet, LibraryError>)
    ensures
        !is_flac_name(path@) ==> r == Err::<TagSet, LibraryError>(LibraryError::InvalidFormat),
        is_flac_name(path@) && !(metadata_framed(bytes@) && comment_block_readable(bytes@)) ==> r
            == Err::<
            TagSet,
            LibraryError,
        >(LibraryError::FormatError),
        is_flac_name(path@) && metadata_framed(bytes@) && comment_block_readable(bytes@) ==> (r matches Ok(t) && t.wf() && t@
            == tags_of(comment_block(bytes@))),
{
    if !is_flac_path(path) {
        return Err(LibraryError::InvalidFormat);
    }
    if !check_metadata_framing(bytes) {
        return Err(LibraryError::FormatError);
    }
    match read_comment_block(bytes) {
        Err(_) => Err(LibraryError::FormatError),
        Ok(comments) => Ok(tags_from_comments(comments)),
    }
}

} // verus!

verus! {

/// A readable FLAC file without a comment block has no tags: `read_tags`
/// gives it the empty set, not an error.
pub proof fn lemma_no_comment_block(path: Seq<char>, bytes: Seq<u8>)
    requires
        is_flac_name(path),
        metadata_framed(bytes),
        comment_block_readable(bytes),
        comment_block(bytes) is None,
    ensures
        tags_of(comment_block(bytes)) == Map::<Seq<char>, Seq<char>>::empty(),
{
}

} // verus!
