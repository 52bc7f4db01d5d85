//! The catalog summary of a torrent's content: parent folder, files, total
//! size and how many files carry each extension.
use vstd::prelude::*;

verus! {

/// The largest total size a record can hold (a signed 64-bit column).
pub const MAX_TOTAL_SIZE: u64 = 0x7fff_ffff_ffff_ffff;

/// One file of a torrent: its path inside the torrent and its length.
pub struct FileEntry {
    pub name: String,
    pub size: u64,
}

/// How many files of a torrent carry one extension.
pub struct ExtensionCount {
    pub extension: String,
    pub count: u64,
}

/// The summary of a torrent's content kept in the catalog.
pub struct FileManifest {
    pub parent_folder: String,
    pub files: Vec<FileEntry>,
    pub size: u64,
    pub extension_counts: Vec<ExtensionCount>,
}

/// The text after the last `.` of a name, or `None` when it has no `.`.
pub open spec fn extension_of(name: Seq<char>) -> Option<Seq<char>>
    decreases name.len(),
{
    if name.len() == 0 {
        None
    } else if name.last() == '.' {
        Some(Seq::empty())
    } else {
        match extension_of(name.drop_last()) {
            Some(e) => Some(e.push(name.last())),
            None => None,
        }
    }
}

/// The names of a file list.
pub open spec fn names_of(files: Seq<FileEntry>) -> Seq<Seq<char>> {
    files.map_values(|f: FileEntry| f.name@)
}

/// The number of names whose extension is `ext`.
pub open spec fn count_extension(names: Seq<Seq<char>>, ext: Seq<char>) -> nat
    decreases names.len(),
{
    if names.len() == 0 {
        0
    } else {
        count_extension(names.drop_last(), ext) + if extension_of(names.last()) == Some(ext) {
            1nat
        } else {
            0nat
        }
    }
}

/// The sum of the lengths of a file list.
pub open spec fn total_size(files: Seq<FileEntry>) -> nat
    decreases files.len(),
{
    if files.len() == 0 {
        0
    } else {
        total_size(files.drop_last()) + files.last().size as nat
    }
}

/// The (path, length) pairs of a file list.
pub open spec fn file_pairs(files: Seq<FileEntry>) -> Seq<(Seq<char>, u64)> {
    files.map_values(|f: FileEntry| (f.name@, f.size))
}

/// The sum of the lengths of (path, length) pairs.
pub open spec fn pairs_total(files: Seq<(Seq<char>, u64)>) -> nat
    decreases files.len(),
{
    if files.len() == 0 {
        0
    } else {
        pairs_total(files.drop_last()) + files.last().1 as nat
    }
}

/// Both sums of a file list agree.
pub proof fn lemma_pairs_total(files: Seq<FileEntry>)
    ensures
        pairs_total(file_pairs(files)) == total_size(files),
    decreases files.len(),
{
    if files.len() > 0 {
        lemma_pairs_total(files.drop_last());
        assert(file_pairs(files).drop_last() =~= file_pairs(files.drop_last()));
    }
}

/// `counts` lists each extension that occurs among `names` once, with the
/// number of names that carry it, and nothing else.
pub open spec fn counts_extensions(counts: Seq<ExtensionCount>, names: Seq<Seq<char>>) -> bool {
    &&& forall|i: int, j: int|
        0 <= i < j < counts.len() ==> counts[i].extension@ != counts[j].extension@
    &&& forall|i: int|
        0 <= i < counts.len() ==> #[trigger] counts[i].count == count_extension(
            names,
            counts[i].extension@,
        ) && counts[i].count > 0
    &&& forall|ext: Seq<char>|
        count_extension(names, ext) > 0 ==> exists|i: int|
            0 <= i < counts.len() && #[trigger] counts[i].extension@ == ext
}

proof fn lemma_extension_after_dot(name: Seq<char>, k: int)
    requires
        0 <= k < name.len(),
        name[k] == '.',
        forall|j: int| k < j < name.len() ==> name[j] != '.',
    ensures
        extension_of(name) == Some(name.subrange(k + 1, name.len() as int)),
    decreases name.len(),
{
    if k == name.len() - 1 {
        assert(name.subrange(k + 1, name.len() as int) =~= Seq::<char>::empty());
    } else {
        let prefix = name.drop_last();
        lemma_extension_after_dot(prefix, k);
        assert(name.subrange(k + 1, name.len() as int) =~= prefix.subrange(
            k + 1,
            prefix.len() as int,
        ).push(name.last()));
    }
}

proof fn lemma_no_dot(name: Seq<char>)
    requires
        forall|j: int| 0 <= j < name.len() ==> name[j] != '.',
    ensures
        extension_of(name) is None,
    decreases name.len(),
{
    if name.len() > 0 {
        lemma_no_dot(name.drop_last());
    }
}

proof fn lemma_count_bounded(names: Seq<Seq<char>>, ext: Seq<char>)
    ensures
        count_extension(names, ext) <= names.len(),
    decreases names.len(),
{
    if names.len() > 0 {
        lemma_count_bounded(names.drop_last(), ext);
    }
}

/// The extension of a file name: the text after its last `.`.
pub fn file_extension(name: &str) -> (r: Option<String>)
    ensures
        match r {
            Some(e) => extension_of(name@) == Some(e@),
            None => extension_of(name@) is None,
        },
{
    let len = name.unicode_len();
    let mut i: usize = len;
    while i > 0
        invariant
            i <= len == name@.len(),
            forall|j: int| i <= j < len ==> name@[j] != '.',
        decreases i,
    {
        if name.get_char(i - 1) == '.' {
            proof {
                lemma_extension_after_dot(name@, i - 1);
            }
            return Some(String::from_str(name.substring_char(i, len)));
        }
        i = i - 1;
    }
    proof {
        lemma_no_dot(name@);
    }
    None
}

proof fn lemma_count_push(names: Seq<Seq<char>>, name: Seq<char>, ext: Seq<char>)
    ensures
        count_extension(names.push(name), ext) == count_extension(names, ext) + if extension_of(
            name,
        ) == Some(ext) {
            1nat
        } else {
            0nat
        },
{
    assert(names.push(name).drop_last() =~= names);
}

/// Adds the file `name`, whose extension is `ext`, to `counts`.
fn add_extension(
    counts: &mut Vec<ExtensionCount>,
    ext: String,
    Ghost(names): Ghost<Seq<Seq<char>>>,
    Ghost(name): Ghost<Seq<char>>,
)
    requires
        counts_extensions(old(counts)@, names),
        extension_of(name) == Some(ext@),
        names.len() < usize::MAX,
    ensures
        counts_extensions(final(counts)@, names.push(name)),
{
    let ghost all = names.push(name);
    assert forall|ex: Seq<char>|
        #[trigger] count_extension(all, ex) == count_extension(names, ex) + if ex == ext@ {
            1nat
        } else {
            0nat
        } by {
        lemma_count_push(names, name, ex);
    }
    let ghost old_counts = counts@;
    let mut i: usize = 0;
    let mut found = false;
    while i < counts.len()
        invariant_except_break
            !found,
        invariant
            counts@ == old_counts,
            0 <= i <= counts@.len(),
            forall|j: int| 0 <= j < i ==> counts@[j].extension@ != ext@,
        ensures
            counts@ == old_counts,
            0 <= i <= counts@.len(),
            forall|j: int| 0 <= j < i ==> counts@[j].extension@ != ext@,
            found ==> i < counts@.len() && counts@[i as int].extension@ == ext@,
            !found ==> i == counts@.len(),
        decreases counts@.len() - i,
    {
        if counts[i].extension == ext {
            found = true;
            break;
        }
        i = i + 1;
    }
    if found {
        proof {
            lemma_count_bounded(names, ext@);
        }
        let c = counts[i].count + 1;
        let e = counts[i].extension.clone();
        counts.set(i, ExtensionCount { extension: e, count: c });
        assert forall|a: int, b: int| 0 <= a < b < counts.len() implies counts@[a].extension@
            != counts@[b].extension@ by {
            assert(counts@[a].extension@ == old_counts[a].extension@);
            assert(counts@[b].extension@ == old_counts[b].extension@);
        }
        assert forall|k: int| 0 <= k < counts.len() implies #[trigger] counts@[k].count
            == count_extension(all, counts@[k].extension@) && counts@[k].count > 0 by {
            assert(old_counts[k].count == count_extension(names, old_counts[k].extension@));
        }
        assert forall|ex: Seq<char>| count_extension(all, ex) > 0 implies exists|k: int|
            0 <= k < counts.len() && #[trigger] counts@[k].extension@ == ex by {
            if ex != ext@ {
                assert(count_extension(names, ex) > 0);
                let k = choose|k: int|
                    0 <= k < old_counts.len() && #[trigger] old_counts[k].extension@ == ex;
                assert(counts@[k].extension@ == ex);
            } else {
                assert(counts@[i as int].extension@ == ex);
            }
        }
        return;
    }
    let ghost before = counts@;
    counts.push(ExtensionCount { extension: ext, count: 1 });
    assert(count_extension(names, ext@) == 0) by {
        if count_extension(names, ext@) > 0 {
            let k = choose|k: int|
                0 <= k < before.len() && #[trigger] before[k].extension@ == ext@;
        }
    }
    assert forall|k: int| 0 <= k < counts.len() implies #[trigger] counts@[k].count
        == count_extension(all, counts@[k].extension@) && counts@[k].count > 0 by {
        if k < before.len() {
            assert(before[k].count == count_extension(names, before[k].extension@));
        }
    }
    assert forall|ex: Seq<char>| count_extension(all, ex) > 0 implies exists|k: int|
        0 <= k < counts.len() && #[trigger] counts@[k].extension@ == ex by {
        if ex != ext@ {
            assert(count_extension(names, ex) > 0);
            let k = choose|k: int| 0 <= k < before.len() && #[trigger] before[k].extension@ == ex;
            assert(counts@[k].extension@ == ex);
        } else {
            assert(counts@[before.len() as int].extension@ == ex);
        }
    }
}

/// Summarises a torrent's content for the catalog: the parent folder (empty
/// when there is none), the files as given, their total length, and the
/// extension counts. `None` when the total length does not fit a record.
pub fn build_manifest(parent_folder: Option<String>, files: Vec<FileEntry>) -> (r: Option<
    FileManifest,
>)
    ensures
        r is Some <==> total_size(files@) <= MAX_TOTAL_SIZE,
        r matches Some(m) ==> {
            &&& m.parent_folder@ == match parent_folder {
                Some(p) => p@,
                None => Seq::<char>::empty(),
            }
            &&& m.files@ == files@
            &&& m.size == total_size(files@)
            &&& counts_extensions(m.extension_counts@, names_of(files@))
        },
{
    let mut size: u64 = 0;
    let mut counts: Vec<ExtensionCount> = Vec::new();
    let mut i: usize = 0;
    while i < files.len()
        invariant
            0 <= i <= files@.len(),
            size == total_size(files@.subrange(0, i as int)),
            size <= MAX_TOTAL_SIZE,
            counts_extensions(counts@, names_of(files@.subrange(0, i as int))),
        decreases files@.len() - i,
    {
        let ghost prefix = files@.subrange(0, i as int);
        let ghost next = files@.subrange(0, i + 1);
        assert(next.drop_last() =~= prefix);
        assert(names_of(next) =~= names_of(prefix).push(files@[i as int].name@));
        let len = files[i].size;
        if len > MAX_TOTAL_SIZE - size {
            proof {
                lemma_total_size_monotone(files@, i + 1);
            }
            return None;
        }
        size = size + len;
        match file_extension(files[i].name.as_str()) {
            Some(ext) => {
                add_extension(&mut counts, ext, Ghost(names_of(prefix)), Ghost(files@[i as int].name@));
            },
            None => {
                assert forall|ex: Seq<char>|
                    #[trigger] count_extension(names_of(next), ex) == count_extension(
                        names_of(prefix),
                        ex,
                    ) by {
                    lemma_count_push(names_of(prefix), files@[i as int].name@, ex);
                }
            },
        }
        i = i + 1;
    }
    assert(files@.subrange(0, files@.len() as int) =~= files@);
    let parent = match parent_folder {
        Some(p) => p,
        None => String::new(),
    };
    Some(FileManifest { parent_folder: parent, files, size, extension_counts: counts })
}

proof fn lemma_total_size_monotone(files: Seq<FileEntry>, n: int)
    requires
        0 <= n <= files.len(),
    ensures
        total_size(files.subrange(0, n)) <= total_size(files),
    decreases files.len() - n,
{
    if n < files.len() {
        lemma_total_size_monotone(files, n + 1);
        assert(files.subrange(0, n + 1).drop_last() =~= files.subrange(0, n));
    } else {
        assert(files.subrange(0, n) =~= files);
    }
}

} // verus!
