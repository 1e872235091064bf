//! The documents loaded from disk: which files count as Markdown, and the index that maps each
//! file path to what was read from it. The caller walks the directories and reads the files.
use vstd::prelude::*;
use crate::markdown::{markdown_text, parse_markdown_to_text};
use crate::text::chars_of;

verus! {

/// The directory documents are loaded from when none is given.
pub const DEFAULT_DOCS_PATH: &'static str = "metacontract/mc/site/docs";

/// The directory to load documents from: the given one, or the default.
pub fn docs_path_or_default(path: Option<String>) -> (p: String)
    ensures
        p@ == match path {
            Some(d) => d@,
            None => DEFAULT_DOCS_PATH@,
        },
{
    match path {
        Some(d) => d,
        None => DEFAULT_DOCS_PATH.to_string(),
    }
}

/// Whether a file name has the extension `md`, as `Path::extension` reads it: the part after
/// the last dot, when that dot does not begin the name.
pub open spec fn is_markdown_file_name(name: Seq<char>) -> bool {
    name.len() >= 4 && name.subrange(name.len() - 3, name.len() as int) == seq!['.', 'm', 'd']
}

/// Tells whether a file name has the extension `md`.
pub fn has_markdown_extension(file_name: &str) -> (b: bool)
    ensures
        b == is_markdown_file_name(file_name@),
{
    let v = chars_of(file_name);
    let n = v.len();
    if n < 4 {
        return false;
    }
    let b = v[n - 3] == '.' && v[n - 2] == 'm' && v[n - 1] == 'd';
    proof {
        let tail = file_name@.subrange(n - 3, n as int);
        if b {
            assert(tail =~= seq!['.', 'm', 'd']);
        } else {
            assert(tail[0] != '.' || tail[1] != 'm' || tail[2] != 'd');
        }
    }
    b
}

/// Whether no two entries have the same key.
pub open spec fn keys_distinct<V>(entries: Seq<(String, V)>) -> bool {
    forall|i: int, j: int|
        0 <= i < j < entries.len() ==> (#[trigger] entries[i]).0@ != (#[trigger] entries[j]).0@
}

/// The map that a list of entries stands for.
pub open spec fn entries_map<V: View>(entries: Seq<(String, V)>) -> Map<Seq<char>, V::V>
    decreases entries.len(),
{
    if entries.len() == 0 {
        Map::empty()
    } else {
        entries_map(entries.drop_last()).insert(entries.last().0@, entries.last().1@)
    }
}

proof fn lemma_entries_map_lookup<V: View>(entries: Seq<(String, V)>, i: int)
    requires
        keys_distinct(entries),
        0 <= i < entries.len(),
    ensures
        entries_map(entries).contains_key(entries[i].0@),
        entries_map(entries)[entries[i].0@] == entries[i].1@,
    decreases entries.len(),
{
    if i < entries.len() - 1 {
        let prev = entries.drop_last();
        assert(prev[i] == entries[i]);
        assert(keys_distinct(prev)) by {
            assert forall|a: int, b: int| 0 <= a < b < prev.len() implies (#[trigger] prev[a]).0@
                != (#[trigger] prev[b]).0@ by {
                assert(prev[a] == entries[a] && prev[b] == entries[b]);
            }
        }
        lemma_entries_map_lookup(prev, i);
        assert(entries[i].0@ != entries[entries.len() - 1].0@);
    }
}

proof fn lemma_entries_map_has_entry<V: View>(entries: Seq<(String, V)>, k: Seq<char>)
    requires
        entries_map(entries).contains_key(k),
    ensures
        exists|i: int| 0 <= i < entries.len() && (#[trigger] entries[i]).0@ == k,
    decreases entries.len(),
{
    if entries.len() > 0 {
        let prev = entries.drop_last();
        if k == entries.last().0@ {
            assert(entries[entries.len() - 1].0@ == k);
        } else {
            lemma_entries_map_has_entry(prev, k);
            let i = choose|i: int| 0 <= i < prev.len() && (#[trigger] prev[i]).0@ == k;
            assert(entries[i] == prev[i]);
        }
    }
}

proof fn lemma_entries_map_len<V: View>(entries: Seq<(String, V)>)
    requires
        keys_distinct(entries),
    ensures
        entries_map(entries).dom().finite(),
        entries_map(entries).len() == entries.len(),
    decreases entries.len(),
{
    if entries.len() > 0 {
        let prev = entries.drop_last();
        assert(keys_distinct(prev)) by {
            assert forall|a: int, b: int| 0 <= a < b < prev.len() implies (#[trigger] prev[a]).0@
                != (#[trigger] prev[b]).0@ by {
                assert(prev[a] == entries[a] && prev[b] == entries[b]);
            }
        }
        lemma_entries_map_len(prev);
        let k = entries.last().0@;
        if entries_map(prev).contains_key(k) {
            lemma_entries_map_has_entry(prev, k);
            let i = choose|i: int| 0 <= i < prev.len() && (#[trigger] prev[i]).0@ == k;
            assert(entries[i] == prev[i]);
            assert(entries[i].0@ != entries[entries.len() - 1].0@);
        }
        assert(entries_map(entries).dom() == entries_map(prev).dom().insert(k));
    }
}

/// A map from file paths to what was read from them, in the order the paths were first
/// inserted. No path occurs twice.
#[derive(Debug)]
pub struct DocumentMap<V> {
    entries: Vec<(String, V)>,
}

impl<V> DocumentMap<V> {
    #[verifier::type_invariant]
    spec fn distinct_paths(self) -> bool {
        keys_distinct(self.entries@)
    }
}

impl<V: View> View for DocumentMap<V> {
    type V = Map<Seq<char>, V::V>;

    closed spec fn view(&self) -> Map<Seq<char>, V::V> {
        entries_map(self.entries@)
    }
}

impl<V: View> DocumentMap<V> {
    /// An empty map.
    pub fn new() -> (m: DocumentMap<V>)
        ensures
            m@ == Map::<Seq<char>, V::V>::empty(),
    {
        DocumentMap { entries: Vec::new() }
    }

    fn find(&self, path: &str) -> (r: Option<usize>)
        ensures
            match r {
                Some(i) => i < self.entries.len() && self.entries@[i as int].0@ == path@,
                None => forall|i: int|
                    0 <= i < self.entries.len() ==> (#[trigger] self.entries@[i]).0@ != path@,
            },
    {
        let mut i: usize = 0;
        while i < self.entries.len()
            invariant
                0 <= i <= self.entries.len(),
                forall|j: int| 0 <= j < i ==> (#[trigger] self.entries@[j]).0@ != path@,
            decreases self.entries.len() - i,
        {
            if crate::text::str_eq(self.entries[i].0.as_str(), path) {
                return Some(i);
            }
            i = i + 1;
        }
        None
    }

    /// Inserts or replaces the value of a path.
    pub fn insert(&mut self, path: String, value: V)
        ensures
            final(self)@ == old(self)@.insert(path@, value@),
    {
        proof {
            use_type_invariant(&*self);
        }
        let ghost old_entries = self.entries@;
        match self.find(path.as_str()) {
            Some(i) => {
                let ghost k = path@;
                let ghost v = value@;
                let ghost new_entries = old_entries.update(i as int, (path, value));
                proof {
                    assert(keys_distinct(new_entries)) by {
                        assert forall|a: int, b: int| 0 <= a < b < new_entries.len() implies (
                        #[trigger] new_entries[a]).0@ != (#[trigger] new_entries[b]).0@ by {
                            if a != i && b != i {
                                assert(new_entries[a] == old_entries[a]);
                                assert(new_entries[b] == old_entries[b]);
                            } else if a == i {
                                assert(new_entries[b] == old_entries[b]);
                            } else {
                                assert(new_entries[a] == old_entries[a]);
                            }
                        }
                    }
                    assert forall|q: Seq<char>| #[trigger]
                        entries_map(new_entries).contains_key(q) <==> entries_map(
                            old_entries,
                        ).insert(k, v).contains_key(q) by {
                        if entries_map(new_entries).contains_key(q) {
                            lemma_entries_map_has_entry(new_entries, q);
                            let j = choose|j: int|
                                0 <= j < new_entries.len() && (#[trigger] new_entries[j]).0@ == q;
                            if j != i {
                                assert(new_entries[j] == old_entries[j]);
                                lemma_entries_map_lookup(old_entries, j);
                            }
                        }
                        if entries_map(old_entries).contains_key(q) && q != k {
                            lemma_entries_map_has_entry(old_entries, q);
                            let j = choose|j: int|
                                0 <= j < old_entries.len() && (#[trigger] old_entries[j]).0@ == q;
                            assert(j != i);
                            assert(new_entries[j] == old_entries[j]);
                            lemma_entries_map_lookup(new_entries, j);
                        }
                        if q == k {
                            lemma_entries_map_lookup(new_entries, i as int);
                        }
                    }
                    assert forall|q: Seq<char>| #[trigger]
                        entries_map(new_entries).contains_key(q) implies entries_map(
                        new_entries,
                    )[q] == entries_map(old_entries).insert(k, v)[q] by {
                        if q == k {
                            lemma_entries_map_lookup(new_entries, i as int);
                        } else {
                            lemma_entries_map_has_entry(new_entries, q);
                            let j = choose|j: int|
                                0 <= j < new_entries.len() && (#[trigger] new_entries[j]).0@ == q;
                            assert(j != i);
                            assert(new_entries[j] == old_entries[j]);
                            lemma_entries_map_lookup(new_entries, j);
                            lemma_entries_map_lookup(old_entries, j);
                        }
                    }
                    assert(entries_map(new_entries) =~= entries_map(old_entries).insert(k, v));
                }
                let mut entries: Vec<(String, V)> = Vec::new();
                std::mem::swap(&mut entries, &mut self.entries);
                entries.set(i, (path, value));
                assert(entries@ == new_entries);
                self.entries = entries;
            },
            None => {
                proof {
                    let new_entries = old_entries.push((path, value));
                    assert(keys_distinct(new_entries)) by {
                        assert forall|a: int, b: int| 0 <= a < b < new_entries.len() implies (
                        #[trigger] new_entries[a]).0@ != (#[trigger] new_entries[b]).0@ by {
                            assert(new_entries[a] == old_entries[a]);
                            if b < old_entries.len() {
                                assert(new_entries[b] == old_entries[b]);
                            }
                        }
                    }
                    assert(new_entries.drop_last() == old_entries);
                }
                let mut entries: Vec<(String, V)> = Vec::new();
                std::mem::swap(&mut entries, &mut self.entries);
                entries.push((path, value));
                self.entries = entries;
            },
        }
    }

    /// The value of a path, if the map has one.
    pub fn get(&self, path: &str) -> (r: Option<&V>)
        ensures
            match r {
                Some(v) => self@.contains_key(path@) && v@ == self@[path@],
                None => !self@.contains_key(path@),
            },
    {
        proof {
            use_type_invariant(self);
        }
        match self.find(path) {
            Some(i) => {
                proof {
                    lemma_entries_map_lookup(self.entries@, i as int);
                }
                Some(&self.entries[i].1)
            },
            None => {
                proof {
                    if self@.contains_key(path@) {
                        lemma_entries_map_has_entry(self.entries@, path@);
                    }
                }
                None
            },
        }
    }

    /// Whether the map has a value for a path.
    pub fn contains_key(&self, path: &str) -> (b: bool)
        ensures
            b == self@.contains_key(path@),
    {
        self.get(path).is_some()
    }

    /// The number of paths in the map.
    pub fn len(&self) -> (n: usize)
        ensures
            n == self@.len(),
            self@.dom().finite(),
    {
        proof {
            use_type_invariant(self);
            lemma_entries_map_len(self.entries@);
        }
        self.entries.len()
    }

    /// Whether the map is empty.
    pub fn is_empty(&self) -> (b: bool)
        ensures
            b == (self@.len() == 0),
    {
        self.len() == 0
    }

    /// The entries of the map, in the order their paths were first inserted: each path once,
    /// with its value.
    pub fn entries(&self) -> (r: &Vec<(String, V)>)
        ensures
            r@.len() == self@.len(),
            keys_distinct(r@),
            forall|i: int|
                0 <= i < r@.len() ==> self@.contains_key((#[trigger] r@[i]).0@) && self@[r@[i].0@]
                    == r@[i].1@,
            forall|k: Seq<char>|
                #[trigger] self@.contains_key(k) ==> exists|i: int|
                    0 <= i < r@.len() && (#[trigger] r@[i]).0@ == k,
    {
        proof {
            use_type_invariant(self);
            lemma_entries_map_len(self.entries@);
            assert forall|i: int| 0 <= i < self.entries@.len() implies self@.contains_key(
                (#[trigger] self.entries@[i]).0@,
            ) && self@[self.entries@[i].0@] == self.entries@[i].1@ by {
                lemma_entries_map_lookup(self.entries@, i);
            }
            assert forall|k: Seq<char>| #[trigger] self@.contains_key(k) implies exists|i: int|
                0 <= i < self.entries@.len() && (#[trigger] self.entries@[i]).0@ == k by {
                lemma_entries_map_has_entry(self.entries@, k);
            }
        }
        &self.entries
    }
}

/// The index of documents: each file path mapped to its text and the name of its source.
pub type DocumentIndex = DocumentMap<(String, String)>;

/// What indexing these files, read from a source, adds to an index: each path mapped to the
/// text of its Markdown and the source; a later file of the same path replaces an earlier.
pub open spec fn indexed_files(
    index: Map<Seq<char>, (Seq<char>, Seq<char>)>,
    files: Seq<(String, String)>,
    source: Seq<char>,
) -> Map<Seq<char>, (Seq<char>, Seq<char>)>
    decreases files.len(),
{
    if files.len() == 0 {
        index
    } else {
        indexed_files(index, files.drop_last(), source).insert(
            files.last().0@,
            (markdown_text(files.last().1@), source),
        )
    }
}

/// Adds files read from a source to an index: each path (first of the pair) is mapped to the
/// plain text of its Markdown content (second of the pair) and to the source's name.
pub fn index_files(index: &mut DocumentIndex, files: &Vec<(String, String)>, source: &str)
    ensures
        final(index)@ == indexed_files(old(index)@, files@, source@),
{
    let ghost start = index@;
    let mut i: usize = 0;
    while i < files.len()
        invariant
            0 <= i <= files.len(),
            index@ == indexed_files(start, files@.take(i as int), source@),
        decreases files.len() - i,
    {
        let text = parse_markdown_to_text(files[i].1.as_str());
        index.insert(files[i].0.clone(), (text, source.to_string()));
        proof {
            assert(files@.take(i + 1).drop_last() == files@.take(i as int));
            assert(files@.take(i + 1).last() == files@[i as int]);
        }
        i = i + 1;
    }
    assert(files@.take(files.len() as int) == files@);
}

/// The map of raw contents that these files stand for: each path mapped to its content; a
/// later file of the same path replaces an earlier.
pub open spec fn raw_files(files: Seq<(String, String)>) -> Map<Seq<char>, Seq<char>>
    decreases files.len(),
{
    if files.len() == 0 {
        Map::empty()
    } else {
        raw_files(files.drop_last()).insert(files.last().0@, files.last().1@)
    }
}

/// Collects the raw contents of files read from a source, by path.
pub fn collect_raw_documents(files: Vec<(String, String)>) -> (m: DocumentMap<String>)
    ensures
        m@ == raw_files(files@),
{
    let mut m: DocumentMap<String> = DocumentMap::new();
    let mut i: usize = 0;
    while i < files.len()
        invariant
            0 <= i <= files.len(),
            m@ == raw_files(files@.take(i as int)),
        decreases files.len() - i,
    {
        m.insert(files[i].0.clone(), files[i].1.clone());
        proof {
            assert(files@.take(i + 1).drop_last() == files@.take(i as int));
            assert(files@.take(i + 1).last() == files@[i as int]);
        }
        i = i + 1;
    }
    assert(files@.take(files.len() as int) == files@);
    m
}

/// After indexing files, each path maps to the text of the last file read under that path
/// and to the source: what a lookup gives back is what was written last.
pub proof fn law_index_holds_last_file(
    index: Map<Seq<char>, (Seq<char>, Seq<char>)>,
    files: Seq<(String, String)>,
    source: Seq<char>,
    i: int,
)
    requires
        0 <= i < files.len(),
        forall|j: int| i < j < files.len() ==> (#[trigger] files[j]).0@ != files[i].0@,
    ensures
        indexed_files(index, files, source).contains_key(files[i].0@),
        indexed_files(index, files, source)[files[i].0@] == (markdown_text(files[i].1@), source),
    decreases files.len(),
{
    if i < files.len() - 1 {
        let prev = files.drop_last();
        assert forall|j: int| i < j < prev.len() implies (#[trigger] prev[j]).0@ != prev[i].0@ by {
            assert(prev[j] == files[j]);
        }
        law_index_holds_last_file(index, prev, source, i);
        assert(prev[i] == files[i]);
        assert(files[files.len() - 1].0@ != files[i].0@);
    }
}

/// Indexing files leaves the paths that none of them has as they were.
pub proof fn law_index_keeps_other_paths(
    index: Map<Seq<char>, (Seq<char>, Seq<char>)>,
    files: Seq<(String, String)>,
    source: Seq<char>,
    path: Seq<char>,
)
    requires
        forall|j: int| 0 <= j < files.len() ==> (#[trigger] files[j]).0@ != path,
    ensures
        indexed_files(index, files, source).contains_key(path) == index.contains_key(path),
        index.contains_key(path) ==> indexed_files(index, files, source)[path] == index[path],
    decreases files.len(),
{
    if files.len() > 0 {
        let prev = files.drop_last();
        assert forall|j: int| 0 <= j < prev.len() implies (#[trigger] prev[j]).0@ != path by {
            assert(prev[j] == files[j]);
        }
        law_index_keeps_other_paths(index, prev, source, path);
        assert(files[files.len() - 1].0@ != path);
    }
}

/// Names what `serde_json::from_slice` makes of the bytes of a prebuilt index read as one JSON
/// object that maps each path to a pair `[text, source]` (a `BTreeMap<String, (String,
/// String)>`): its entries as (path, text, source), or serde's error message.
pub uninterp spec fn prebuilt_index_json(bytes: Seq<u8>) -> Result<
    Seq<(Seq<char>, Seq<char>, Seq<char>)>,
    Seq<char>,
>;

/// The view of a parsed prebuilt index entry.
pub open spec fn entry_view(e: (String, String, String)) -> (Seq<char>, Seq<char>, Seq<char>) {
    (e.0@, e.1@, e.2@)
}

/// Parses the bytes of a prebuilt index with `serde_json::from_slice` into a
/// `BTreeMap<String, (String, String)>` and lists its entries as (path, text, source). The
/// contract claims only that the outcome is the named function of the bytes: the entries when
/// serde accepts them, serde's error message (its `Display` text) when it does not.
#[verifier::external_body]
fn parse_prebuilt_index(bytes: &[u8]) -> (r: Result<Vec<(String, String, String)>, String>)
    ensures
        match (r, prebuilt_index_json(bytes@)) {
            (Ok(v), Ok(entries)) => v@.map_values(|e: (String, String, String)| entry_view(e))
                == entries,
            (Err(m), Err(message)) => m@ == message,
            _ => false,
        },
{
    match serde_json::from_slice::<std::collections::BTreeMap<String, (String, String)>>(bytes) {
        Ok(map) => Ok(map.into_iter().map(|(path, (body, source))| (path, body, source)).collect()),
        Err(e) => Err(e.to_string()),
    }
}

/// The index that prebuilt entries stand for: each path mapped to its text and source; a later
/// entry of the same path replaces an earlier.
pub open spec fn prebuilt_map(entries: Seq<(Seq<char>, Seq<char>, Seq<char>)>) -> Map<
    Seq<char>,
    (Seq<char>, Seq<char>),
>
    decreases entries.len(),
{
    if entries.len() == 0 {
        Map::empty()
    } else {
        prebuilt_map(entries.drop_last()).insert(
            entries.last().0,
            (entries.last().1, entries.last().2),
        )
    }
}

/// Whether a byte is JSON white space (space, tab, carriage return or line feed).
pub open spec fn is_json_space(b: u8) -> bool {
    b == 32u8 || b == 9u8 || b == 13u8 || b == 10u8
}

/// Whether a line holds nothing but JSON white space.
pub open spec fn is_blank_line(line: Seq<u8>) -> bool {
    forall|i: int| 0 <= i < line.len() ==> is_json_space(#[trigger] line[i])
}

/// Reading bytes up to a position: the non-blank lines already ended by a line feed, and the
/// line read so far.
pub open spec fn scan_lines(bytes: Seq<u8>) -> (Seq<Seq<u8>>, Seq<u8>)
    decreases bytes.len(),
{
    if bytes.len() == 0 {
        (seq![], seq![])
    } else {
        let (done, current) = scan_lines(bytes.drop_last());
        if bytes.last() == 10u8 {
            (
                if is_blank_line(current) {
                    done
                } else {
                    done.push(current)
                },
                seq![],
            )
        } else {
            (done, current.push(bytes.last()))
        }
    }
}

/// The records of a JSON Lines text: its lines (split at each line feed), leaving out the
/// lines that are blank.
pub open spec fn jsonl_records(bytes: Seq<u8>) -> Seq<Seq<u8>> {
    let (done, current) = scan_lines(bytes);
    if is_blank_line(current) {
        done
    } else {
        done.push(current)
    }
}

fn blank_line(line: &Vec<u8>) -> (b: bool)
    ensures
        b == is_blank_line(line@),
{
    let mut i: usize = 0;
    while i < line.len()
        invariant
            0 <= i <= line.len(),
            forall|k: int| 0 <= k < i ==> is_json_space(#[trigger] line@[k]),
        decreases line.len() - i,
    {
        let c = line[i];
        if !(c == 32u8 || c == 9u8 || c == 13u8 || c == 10u8) {
            return false;
        }
        i = i + 1;
    }
    true
}

/// The views of a list of byte strings.
pub open spec fn byte_lines_view(v: Seq<Vec<u8>>) -> Seq<Seq<u8>> {
    v.map_values(|l: Vec<u8>| l@)
}

/// Splits a JSON Lines text into its records: one per line, blank lines left out.
pub fn split_jsonl_records(bytes: &[u8]) -> (r: Vec<Vec<u8>>)
    ensures
        byte_lines_view(r@) == jsonl_records(bytes@),
{
    let mut done: Vec<Vec<u8>> = Vec::new();
    let mut current: Vec<u8> = Vec::new();
    let mut i: usize = 0;
    while i < bytes.len()
        invariant
            0 <= i <= bytes.len(),
            (byte_lines_view(done@), current@) == scan_lines(bytes@.take(i as int)),
        decreases bytes.len() - i,
    {
        let b = bytes[i];
        proof {
            assert(bytes@.take(i + 1).drop_last() == bytes@.take(i as int));
            assert(bytes@.take(i + 1).last() == b);
        }
        if b == 10u8 {
            let mut line: Vec<u8> = Vec::new();
            std::mem::swap(&mut line, &mut current);
            if !blank_line(&line) {
                let ghost before = done@;
                done.push(line);
                assert(byte_lines_view(done@) =~= byte_lines_view(before).push(line@));
            }
        } else {
            current.push(b);
        }
        i = i + 1;
    }
    assert(bytes@.take(bytes.len() as int) == bytes@);
    if !blank_line(&current) {
        let ghost before = done@;
        let last = current;
        done.push(last);
        assert(byte_lines_view(done@) =~= byte_lines_view(before).push(last@));
    }
    done
}

/// What a prebuilt index holds.
#[derive(Debug)]
pub enum PrebuiltIndex {
    /// A JSON object mapping each path to its text and source, as an index.
    Documents(DocumentIndex),
    /// JSON Lines: one record per line, each still to be read (as `build-index` writes them,
    /// with their vectors).
    Records(Vec<Vec<u8>>),
}

/// Reads a prebuilt index: when the bytes parse as one JSON object mapping each path to
/// `[text, source]`, the index of those entries; otherwise the bytes are JSON Lines, and the
/// result is their records, one per non-blank line.
pub fn prebuilt_index_from_bytes(bytes: &[u8]) -> (r: PrebuiltIndex)
    ensures
        r is Documents <==> prebuilt_index_json(bytes@) is Ok,
        r matches PrebuiltIndex::Documents(index) ==> index@ == prebuilt_map(
            prebuilt_index_json(bytes@)->Ok_0,
        ),
        r matches PrebuiltIndex::Records(lines) ==> byte_lines_view(lines@) == jsonl_records(
            bytes@,
        ),
{
    match parse_prebuilt_index(bytes) {
        Err(_) => PrebuiltIndex::Records(split_jsonl_records(bytes)),
        Ok(entries) => {
            let ghost parsed = entries@.map_values(|e: (String, String, String)| entry_view(e));
            let mut index: DocumentIndex = DocumentMap::new();
            let mut i: usize = 0;
            while i < entries.len()
                invariant
                    0 <= i <= entries.len(),
                    parsed == entries@.map_values(|e: (String, String, String)| entry_view(e)),
                    index@ == prebuilt_map(parsed.take(i as int)),
                decreases entries.len() - i,
            {
                let path = entries[i].0.clone();
                let body = entries[i].1.clone();
                let source = entries[i].2.clone();
                index.insert(path, (body, source));
                proof {
                    assert(parsed.take(i + 1).drop_last() == parsed.take(i as int));
                    assert(parsed.take(i + 1).last() == parsed[i as int]);
                }
                i = i + 1;
            }
            assert(parsed.take(entries.len() as int) == parsed);
            PrebuiltIndex::Documents(index)
        },
    }
}

/// The error when a prebuilt record cannot be read: serde's message after
/// `Failed to parse prebuilt index JSON: `.
pub fn prebuilt_parse_error(message: &str) -> (m: String)
    ensures
        m@ == "Failed to parse prebuilt index JSON: "@ + message@,
{
    let mut m = "Failed to parse prebuilt index JSON: ".to_string();
    crate::text::string_push_str(&mut m, message);
    m
}

/// The JSON Lines text of records: each record followed by a line feed.
pub open spec fn jsonl_text(records: Seq<Seq<u8>>) -> Seq<u8>
    decreases records.len(),
{
    if records.len() == 0 {
        seq![]
    } else {
        jsonl_text(records.drop_last()) + records.last() + seq![10u8]
    }
}

/// Whether a record can stand on a line of its own: it holds no line feed and is not blank.
pub open spec fn is_line_record(record: Seq<u8>) -> bool {
    !record.contains(10u8) && !is_blank_line(record)
}

proof fn lemma_scan_appends_line(prefix: Seq<u8>, line: Seq<u8>)
    requires
        !line.contains(10u8),
    ensures
        scan_lines(prefix + line) == (scan_lines(prefix).0, scan_lines(prefix).1 + line),
    decreases line.len(),
{
    if line.len() == 0 {
        assert(prefix + line == prefix);
        assert(scan_lines(prefix).1 + line == scan_lines(prefix).1);
    } else {
        assert((prefix + line).drop_last() == prefix + line.drop_last());
        assert(!line.drop_last().contains(10u8)) by {
            if line.drop_last().contains(10u8) {
                let k = choose|k: int| 0 <= k < line.drop_last().len() && line.drop_last()[k] == 10u8;
                assert(line[k] == 10u8);
            }
        }
        lemma_scan_appends_line(prefix, line.drop_last());
        assert(line.last() != 10u8) by {
            assert(line[line.len() - 1] == line.last());
        }
        assert((prefix + line).last() == line.last());
        assert((scan_lines(prefix).1 + line.drop_last()).push(line.last()) == scan_lines(prefix).1
            + line);
    }
}

proof fn lemma_jsonl_text_scan(records: Seq<Seq<u8>>)
    requires
        forall|i: int| 0 <= i < records.len() ==> is_line_record(#[trigger] records[i]),
    ensures
        scan_lines(jsonl_text(records)) == (records, Seq::<u8>::empty()),
    decreases records.len(),
{
    if records.len() > 0 {
        let prev = records.drop_last();
        assert forall|i: int| 0 <= i < prev.len() implies is_line_record(#[trigger] prev[i]) by {
            assert(prev[i] == records[i]);
        }
        lemma_jsonl_text_scan(prev);
        let line = records.last();
        assert(is_line_record(records[records.len() - 1]));
        lemma_scan_appends_line(jsonl_text(prev), line);
        assert(seq![] + line == line);
        let whole = jsonl_text(prev) + line + seq![10u8];
        assert(whole.drop_last() == jsonl_text(prev) + line);
        assert(whole.last() == 10u8);
        assert(prev.push(line) == records);
    }
}

/// JSON Lines written one record per line, with no line feed inside a record and no blank
/// record, are read back as the same records, in order.
pub proof fn law_jsonl_records_round_trip(records: Seq<Seq<u8>>)
    requires
        forall|i: int| 0 <= i < records.len() ==> is_line_record(#[trigger] records[i]),
    ensures
        jsonl_records(jsonl_text(records)) == records,
{
    lemma_jsonl_text_scan(records);
    assert(is_blank_line(Seq::<u8>::empty()));
}

} // verus!
