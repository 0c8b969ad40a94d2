//! Zipping a directory: which entries go into the archive, and how.

use vstd::prelude::*;
use vstd::utf8::*;

verus! {

/// Names the error type and the archive handle of the zip effect.
pub trait ZipTypes {
    type Error;
    type File;
}

/// The operations a runtime offers for zipping a directory: walking it,
/// writing an archive as a plan lays it out, and the error for an entry
/// whose name the plan cannot take. `zip_directory` decides the plan.
pub trait Zip: ZipTypes {
    /// Whether walking `dir` may give back `r`. A runtime that does not say
    /// allows any result.
    open spec fn walk_gives(dir: Seq<char>, r: Result<Vec<ArchiveEntry>, <Self as ZipTypes>::Error>) -> bool {
        true
    }

    /// Whether `e` may be the error for an entry called `name` that cannot
    /// be cut after its fifth byte.
    open spec fn name_fault_gives(name: Seq<char>, e: <Self as ZipTypes>::Error) -> bool {
        true
    }

    /// Whether writing the archive `to` from `dir` as `ops` lays it out may
    /// give back `r`.
    open spec fn write_archive_gives(dir: Seq<char>, to: Self::File, ops: Seq<ArchiveOpView>, r: Result<(), <Self as ZipTypes>::Error>) -> bool {
        true
    }

    /// Walks the directory `dir`: every entry under it (`dir` itself first,
    /// with the empty name), with its name relative to `dir` and whether it
    /// is a file, in the walk's order. An error when `dir` is not a
    /// directory.
    fn walk_directory(&mut self, dir: &str) -> (r: Result<Vec<ArchiveEntry>, <Self as ZipTypes>::Error>)
        ensures
            Self::walk_gives(dir@, r),
    ;

    /// The error for an entry called `name` that cannot be cut after its
    /// fifth byte.
    fn entry_name_fault(&mut self, name: &str) -> (e: <Self as ZipTypes>::Error)
        ensures
            Self::name_fault_gives(name@, e),
    ;

    /// Empties the archive `to` and writes it as `ops` lays it out, reading
    /// the files it copies under `dir`.
    fn write_archive(&mut self, dir: &str, to: &Self::File, ops: &Vec<ArchiveOp>) -> (r: Result<(), <Self as ZipTypes>::Error>)
        ensures
            Self::write_archive_gives(dir@, *to, ops@.map_values(|o: ArchiveOp| o@), r),
    ;
}

/// Marks a runtime whose zip effect writes real archives.
pub trait InIO {}

/// The bytes of `.git`.
pub open spec fn git_dir_bytes() -> Seq<u8> {
    seq![46u8, 103u8, 105u8, 116u8]
}

/// The bytes of `.git/`.
pub open spec fn git_dir_prefix_bytes() -> Seq<u8> {
    seq![46u8, 103u8, 105u8, 116u8, 47u8]
}

/// Whether an entry with the relative name whose UTF-8 bytes are `name` goes
/// into the archive: everything but the `.git` directory and what lies in it.
pub open spec fn keeps_name(name: Seq<u8>) -> bool {
    &&& name != git_dir_bytes()
    &&& (name.len() < 5 || name.subrange(0, 5) != git_dir_prefix_bytes())
}

/// Whether the first five bytes of `name` can be cut off as a string:
/// fewer than five bytes, or a character starts right after the fifth.
pub open spec fn name_is_cuttable(name: Seq<u8>) -> bool {
    name.len() < 5 || is_char_boundary(name, 5)
}

/// Whether the entry called `name` (relative to the zipped directory) goes
/// into the archive.
pub fn keeps_entry(name: &str) -> (keep: bool)
    requires
        name_is_cuttable(encode_utf8(name@)),
    ensures
        keep == keeps_name(encode_utf8(name@)),
{
    let b = name.as_bytes();
    let n = b.len();
    if n == 4 && b[0] == 46u8 && b[1] == 103u8 && b[2] == 105u8 && b[3] == 116u8 {
        assert(b@ =~= git_dir_bytes());
        return false;
    }
    assert(b@ != git_dir_bytes()) by {
        if b@ == git_dir_bytes() {
            assert(b@[0] == 46u8 && b@[1] == 103u8 && b@[2] == 105u8 && b@[3] == 116u8);
        }
    }
    if n < 5 {
        return true;
    }
    let prefixed = b[0] == 46u8 && b[1] == 103u8 && b[2] == 105u8 && b[3] == 116u8 && b[4] == 47u8;
    if prefixed {
        assert(b@.subrange(0, 5) =~= git_dir_prefix_bytes());
    } else {
        assert(b@.subrange(0, 5) != git_dir_prefix_bytes()) by {
            if b@.subrange(0, 5) == git_dir_prefix_bytes() {
                assert(b@.subrange(0, 5)[0] == b@[0]);
                assert(b@.subrange(0, 5)[1] == b@[1]);
                assert(b@.subrange(0, 5)[2] == b@[2]);
                assert(b@.subrange(0, 5)[3] == b@[3]);
                assert(b@.subrange(0, 5)[4] == b@[4]);
            }
        }
    }
    !prefixed
}

/// The name of the file that records how the archive was built.
pub open spec fn build_info_name() -> Seq<char> {
    "cjbuildinfo.json"@
}

/// The JSON text that records `commit` as the commit an archive was built from.
pub open spec fn build_info_text(commit: Seq<char>) -> Seq<char> {
    "{\"commit\":\""@ + commit + "\"}"@
}

/// The JSON text `{"commit":"<commit>"}`.
pub fn build_info(commit: &str) -> (text: String)
    ensures
        text@ == build_info_text(commit@),
{
    String::from_str("{\"commit\":\"").concat(commit).concat("\"}")
}

/// An entry found under the directory to zip: its name relative to that
/// directory, and whether it is a regular file.
pub struct ArchiveEntry {
    pub name: String,
    pub is_file: bool,
}

pub struct ArchiveEntryView {
    pub name: Seq<char>,
    pub is_file: bool,
}

impl View for ArchiveEntry {
    type V = ArchiveEntryView;

    open spec fn view(&self) -> ArchiveEntryView {
        ArchiveEntryView { name: self.name@, is_file: self.is_file }
    }
}

/// One step of writing an archive.
#[derive(Debug, PartialEq, Eq)]
pub enum ArchiveOp {
    /// Store the file of this relative name, with its contents.
    CopyFile(String),
    /// Store a directory entry of this relative name.
    AddDirectory(String),
    /// Store a file of this name with this text.
    WriteFile(String, String),
}

pub enum ArchiveOpView {
    CopyFile(Seq<char>),
    AddDirectory(Seq<char>),
    WriteFile(Seq<char>, Seq<char>),
}

impl View for ArchiveOp {
    type V = ArchiveOpView;

    open spec fn view(&self) -> ArchiveOpView {
        match self {
            ArchiveOp::CopyFile(n) => ArchiveOpView::CopyFile(n@),
            ArchiveOp::AddDirectory(n) => ArchiveOpView::AddDirectory(n@),
            ArchiveOp::WriteFile(n, t) => ArchiveOpView::WriteFile(n@, t@),
        }
    }
}

/// What one entry contributes to the archive: a file is copied, a directory
/// is added unless it is the zipped directory itself (the empty name), and
/// the `.git` directory with what lies in it is left out.
pub open spec fn entry_ops(e: ArchiveEntryView) -> Seq<ArchiveOpView> {
    if !keeps_name(encode_utf8(e.name)) {
        seq![]
    } else if e.is_file {
        seq![ArchiveOpView::CopyFile(e.name)]
    } else if e.name.len() > 0 {
        seq![ArchiveOpView::AddDirectory(e.name)]
    } else {
        seq![]
    }
}

/// What the entries contribute, in the order they were found.
pub open spec fn entries_ops(entries: Seq<ArchiveEntryView>) -> Seq<ArchiveOpView>
    decreases entries.len(),
{
    if entries.len() == 0 {
        seq![]
    } else {
        entries_ops(entries.drop_last()) + entry_ops(entries.last())
    }
}

/// The whole archive: the entries' steps, then the build information file,
/// which for now records a fixed placeholder commit.
pub open spec fn archive_ops(entries: Seq<ArchiveEntryView>) -> Seq<ArchiveOpView> {
    entries_ops(entries).push(ArchiveOpView::WriteFile(build_info_name(), build_info_text("abc12349024"@)))
}

/// The steps that write the archive of a directory whose entries, in the
/// order a walk of it found them, are `entries`.
pub fn archive_plan(entries: &Vec<ArchiveEntry>) -> (ops: Vec<ArchiveOp>)
    requires
        forall|i: int| 0 <= i < entries@.len() ==> name_is_cuttable(#[trigger] encode_utf8(entries@[i].name@)),
    ensures
        ops@.map_values(|o: ArchiveOp| o@) =~= archive_ops(entries@.map_values(|e: ArchiveEntry| e@)),
{
    let ghost views = entries@.map_values(|e: ArchiveEntry| e@);
    let mut ops: Vec<ArchiveOp> = Vec::new();
    let n = entries.len();
    for i in 0..n
        invariant
            n == entries@.len(),
            views == entries@.map_values(|e: ArchiveEntry| e@),
            forall|j: int| 0 <= j < entries@.len() ==> name_is_cuttable(#[trigger] encode_utf8(entries@[j].name@)),
            ops@.map_values(|o: ArchiveOp| o@) =~= entries_ops(views.take(i as int)),
    {
        let e = &entries[i];
        let name = e.name.as_str();
        assert(views.take(i + 1).drop_last() =~= views.take(i as int));
        assert(views.take(i + 1).last() == views[i as int]);
        assert(name_is_cuttable(encode_utf8(entries@[i as int].name@)));
        if keeps_entry(name) {
            if e.is_file {
                ops.push(ArchiveOp::CopyFile(e.name.clone()));
            } else if !name.is_empty() {
                ops.push(ArchiveOp::AddDirectory(e.name.clone()));
            }
        }
    }
    assert(views.take(n as int) =~= views);
    let text = build_info("abc12349024");
    ops.push(ArchiveOp::WriteFile(String::from_str("cjbuildinfo.json"), text));
    ops
}

/// Whether an archive step stores something found in the directory that
/// belongs in the archive: nothing of `.git`, and no directory entry for the
/// zipped directory itself.
pub open spec fn stores_kept_entry(op: ArchiveOpView) -> bool {
    match op {
        ArchiveOpView::CopyFile(n) => keeps_name(encode_utf8(n)),
        ArchiveOpView::AddDirectory(n) => keeps_name(encode_utf8(n)) && n.len() > 0,
        ArchiveOpView::WriteFile(_, _) => false,
    }
}

/// Every step the entries contribute stores a kept entry.
pub proof fn lemma_entries_ops_kept(entries: Seq<ArchiveEntryView>)
    ensures
        forall|i: int| 0 <= i < entries_ops(entries).len() ==> stores_kept_entry(#[trigger] entries_ops(entries)[i]),
    decreases entries.len(),
{
    if entries.len() > 0 {
        lemma_entries_ops_kept(entries.drop_last());
        let front = entries_ops(entries.drop_last());
        let back = entry_ops(entries.last());
        assert forall|i: int| 0 <= i < entries_ops(entries).len() implies stores_kept_entry(#[trigger] entries_ops(entries)[i]) by {
            if i >= front.len() {
                assert(entries_ops(entries)[i] == back[i - front.len()]);
            } else {
                assert(entries_ops(entries)[i] == front[i]);
            }
        }
    }
}

/// An archive holds nothing of the `.git` directory and no entry for the
/// zipped directory itself, and it always ends with the build information.
pub proof fn law_archive_leaves_out_git(entries: Seq<ArchiveEntryView>)
    ensures
        forall|i: int| 0 <= i < archive_ops(entries).len() - 1 ==> stores_kept_entry(#[trigger] archive_ops(entries)[i]),
        archive_ops(entries).last() == ArchiveOpView::WriteFile(build_info_name(), build_info_text("abc12349024"@)),
{
    lemma_entries_ops_kept(entries);
    assert forall|i: int| 0 <= i < archive_ops(entries).len() - 1 implies stores_kept_entry(#[trigger] archive_ops(entries)[i]) by {
        assert(archive_ops(entries)[i] == entries_ops(entries)[i]);
    }
}

/// A directory whose walk finds only files that belong in the archive is
/// archived as those files, in the order found, then the build information.
pub proof fn law_archive_of_kept_files(entries: Seq<ArchiveEntryView>)
    requires
        forall|i: int| 0 <= i < entries.len() ==> (#[trigger] entries[i]).is_file && keeps_name(encode_utf8(entries[i].name)),
    ensures
        archive_ops(entries) == entries.map_values(|e: ArchiveEntryView| ArchiveOpView::CopyFile(e.name)).push(
            ArchiveOpView::WriteFile(build_info_name(), build_info_text("abc12349024"@)),
        ),
{
    lemma_kept_files_ops(entries);
}

proof fn lemma_kept_files_ops(entries: Seq<ArchiveEntryView>)
    requires
        forall|i: int| 0 <= i < entries.len() ==> (#[trigger] entries[i]).is_file && keeps_name(encode_utf8(entries[i].name)),
    ensures
        entries_ops(entries) =~= entries.map_values(|e: ArchiveEntryView| ArchiveOpView::CopyFile(e.name)),
    decreases entries.len(),
{
    if entries.len() > 0 {
        let front = entries.drop_last();
        assert forall|i: int| 0 <= i < front.len() implies (#[trigger] front[i]).is_file && keeps_name(encode_utf8(front[i].name)) by {
            assert(front[i] == entries[i]);
        }
        lemma_kept_files_ops(front);
        assert(entries[entries.len() - 1] == entries.last());
    }
}

/// Whether `i` is the first entry whose name cannot be cut after its fifth
/// byte.
pub open spec fn first_uncuttable(entries: Seq<ArchiveEntryView>, i: int) -> bool {
    &&& 0 <= i < entries.len()
    &&& !name_is_cuttable(encode_utf8(entries[i].name))
    &&& forall|j: int| 0 <= j < i ==> name_is_cuttable(#[trigger] encode_utf8(entries[j].name))
}

/// Whether zipping `dir` into `to` may end with `r`: the walk fails with
/// `r`'s error; or, of the entries it gives, one cannot be cut after its
/// fifth byte and `r` is the runtime's error for the first such; or the
/// archive is written as `archive_ops` of those entries lays it out.
pub open spec fn zip_gives<T: Zip>(dir: Seq<char>, to: <T as ZipTypes>::File, r: Result<(), <T as ZipTypes>::Error>) -> bool {
    ||| exists|e: <T as ZipTypes>::Error|
        #![trigger T::walk_gives(dir, Err(e))]
        T::walk_gives(dir, Err(e)) && r == Err::<(), <T as ZipTypes>::Error>(e)
    ||| exists|entries: Vec<ArchiveEntry>|
        #![trigger T::walk_gives(dir, Ok(entries))]
        {
            let views = entries@.map_values(|e: ArchiveEntry| e@);
            &&& T::walk_gives(dir, Ok(entries))
            &&& if forall|j: int| 0 <= j < views.len() ==> name_is_cuttable(#[trigger] encode_utf8(views[j].name)) {
                T::write_archive_gives(dir, to, archive_ops(views), r)
            } else {
                exists|i: int|
                    #![trigger views[i]]
                    first_uncuttable(views, i) && (r matches Err(x) && T::name_fault_gives(views[i].name, x))
            }
        }
}

/// Whether the name can be cut after its fifth byte.
pub fn name_cuttable(name: &str) -> (r: bool)
    ensures
        r == name_is_cuttable(encode_utf8(name@)),
{
    name.as_bytes().len() < 5 || name.is_char_boundary(5)
}

/// Zips the directory `dir` into the archive `to`: walks it, and writes the
/// archive that `archive_plan` lays out for the entries found; an entry that
/// cannot be cut after its fifth byte stops it with the runtime's error.
pub fn zip_directory<T: Zip>(runtime: &mut T, dir: &str, to: &<T as ZipTypes>::File) -> (r: Result<(), <T as ZipTypes>::Error>)
    ensures
        zip_gives::<T>(dir@, *to, r),
{
    let entries = match runtime.walk_directory(dir) {
        Ok(entries) => entries,
        Err(e) => {
            assert(T::walk_gives(dir@, Err(e)));
            return Err(e);
        },
    };
    assert(T::walk_gives(dir@, Ok(entries)));
    let ghost views = entries@.map_values(|e: ArchiveEntry| e@);
    let n = entries.len();
    let mut i: usize = 0;
    while i < n
        invariant
            n == entries@.len(),
            i <= n,
            views == entries@.map_values(|e: ArchiveEntry| e@),
            T::walk_gives(dir@, Ok(entries)),
            forall|j: int| 0 <= j < i ==> name_is_cuttable(#[trigger] encode_utf8(views[j].name)),
        decreases n - i,
    {
        if !name_cuttable(entries[i].name.as_str()) {
            let x = runtime.entry_name_fault(entries[i].name.as_str());
            assert(views[i as int] == entries@[i as int]@);
            assert(first_uncuttable(views, i as int));
            assert(!(forall|j: int| 0 <= j < views.len() ==> name_is_cuttable(#[trigger] encode_utf8(views[j].name))));
            assert(T::name_fault_gives(views[i as int].name, x));
            return Err(x);
        }
        i = i + 1;
    }
    assert forall|j: int| 0 <= j < entries@.len() implies name_is_cuttable(#[trigger] encode_utf8(entries@[j].name@)) by {
        assert(views[j] == entries@[j]@);
        assert(name_is_cuttable(encode_utf8(views[j].name)));
    }
    let ops = archive_plan(&entries);
    runtime.write_archive(dir, to, &ops)
}

/// The steps of the first `i` entries are the first steps of all of them.
proof fn lemma_entries_ops_prefix(entries: Seq<ArchiveEntryView>, i: int)
    requires
        0 <= i <= entries.len(),
    ensures
        entries_ops(entries.take(i)).len() <= entries_ops(entries).len(),
        entries_ops(entries).subrange(0, entries_ops(entries.take(i)).len() as int) == entries_ops(entries.take(i)),
    decreases entries.len(),
{
    if i == entries.len() {
        assert(entries.take(i) =~= entries);
    } else {
        let front = entries.drop_last();
        lemma_entries_ops_prefix(front, i);
        assert(front.take(i) =~= entries.take(i));
        let a = entries_ops(entries.take(i));
        let b = entries_ops(front);
        assert(entries_ops(entries) == b + entry_ops(entries.last()));
        assert(entries_ops(entries).subrange(0, a.len() as int) =~= b.subrange(0, a.len() as int));
    }
}

/// The step of a kept entry stands right after the steps of the entries
/// before it.
proof fn lemma_entry_op_at(entries: Seq<ArchiveEntryView>, i: int)
    requires
        0 <= i < entries.len(),
        keeps_name(encode_utf8(entries[i].name)),
        entries[i].is_file || entries[i].name.len() > 0,
    ensures
        entries_ops(entries.take(i)).len() + 1 == entries_ops(entries.take(i + 1)).len(),
        entries_ops(entries.take(i + 1)).len() <= entries_ops(entries).len(),
        entries_ops(entries)[entries_ops(entries.take(i)).len() as int] == (if entries[i].is_file {
            ArchiveOpView::CopyFile(entries[i].name)
        } else {
            ArchiveOpView::AddDirectory(entries[i].name)
        }),
{
    assert(entries.take(i + 1).drop_last() =~= entries.take(i));
    assert(entries.take(i + 1).last() == entries[i]);
    lemma_entries_ops_prefix(entries, i + 1);
    let p = entries_ops(entries.take(i)).len() as int;
    let q = entries_ops(entries.take(i + 1));
    assert(entries_ops(entries)[p] == entries_ops(entries).subrange(0, q.len() as int)[p]);
}

/// Every entry of the walk that belongs in the archive is in it, before the
/// build information: each kept file is copied, each kept directory but the
/// zipped one itself is added, whatever else the walk holds.
pub proof fn law_archive_holds_every_kept_entry(entries: Seq<ArchiveEntryView>, i: int)
    requires
        0 <= i < entries.len(),
        keeps_name(encode_utf8(entries[i].name)),
        entries[i].is_file || entries[i].name.len() > 0,
    ensures
        exists|k: int|
            0 <= k < archive_ops(entries).len() - 1 && #[trigger] archive_ops(entries)[k] == (if entries[i].is_file {
                ArchiveOpView::CopyFile(entries[i].name)
            } else {
                ArchiveOpView::AddDirectory(entries[i].name)
            }),
{
    lemma_entry_op_at(entries, i);
    let k = entries_ops(entries.take(i)).len() as int;
    assert(archive_ops(entries)[k] == entries_ops(entries)[k]);
}

/// The archive keeps the walk's order: of two kept entries, the one walked
/// first is stored first.
pub proof fn law_archive_keeps_walk_order(entries: Seq<ArchiveEntryView>, i: int, j: int)
    requires
        0 <= i < j < entries.len(),
        keeps_name(encode_utf8(entries[i].name)),
        entries[i].is_file || entries[i].name.len() > 0,
        keeps_name(encode_utf8(entries[j].name)),
        entries[j].is_file || entries[j].name.len() > 0,
    ensures
        exists|k1: int, k2: int|
            0 <= k1 < k2 < archive_ops(entries).len() - 1
            && #[trigger] archive_ops(entries)[k1] == (if entries[i].is_file {
                ArchiveOpView::CopyFile(entries[i].name)
            } else {
                ArchiveOpView::AddDirectory(entries[i].name)
            })
            && #[trigger] archive_ops(entries)[k2] == (if entries[j].is_file {
                ArchiveOpView::CopyFile(entries[j].name)
            } else {
                ArchiveOpView::AddDirectory(entries[j].name)
            }),
{
    lemma_entry_op_at(entries, i);
    lemma_entry_op_at(entries, j);
    let front = entries.take(j);
    lemma_entries_ops_prefix(front, i + 1);
    assert(front.take(i + 1) =~= entries.take(i + 1));
    let k1 = entries_ops(entries.take(i)).len() as int;
    let k2 = entries_ops(entries.take(j)).len() as int;
    assert(archive_ops(entries)[k1] == entries_ops(entries)[k1]);
    assert(archive_ops(entries)[k2] == entries_ops(entries)[k2]);
}

/// Zipping writes the archive of the whole walk: when the walk of `dir`
/// gives exactly the entries `views`, all of whose names can be cut, the
/// result is that of writing `archive_ops(views)` into `to`.
pub proof fn law_zip_writes_the_whole_walk<T: Zip>(
    dir: Seq<char>,
    to: <T as ZipTypes>::File,
    views: Seq<ArchiveEntryView>,
    r: Result<(), <T as ZipTypes>::Error>,
)
    requires
        forall|x: Vec<ArchiveEntry>| #[trigger] T::walk_gives(dir, Ok(x)) ==> x@.map_values(|e: ArchiveEntry| e@) == views,
        forall|e: <T as ZipTypes>::Error| !(#[trigger] T::walk_gives(dir, Err(e))),
        forall|j: int| 0 <= j < views.len() ==> name_is_cuttable(#[trigger] encode_utf8(views[j].name)),
        zip_gives::<T>(dir, to, r),
    ensures
        T::write_archive_gives(dir, to, archive_ops(views), r),
{
}

} // verus!
