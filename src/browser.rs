//! Sorting the entries of one directory into the three lists that the main
//! screen offers: directories, recipe files and add-on archives.

use vstd::prelude::*;

verus! {

/// One entry of a directory, as the file system reported it.
pub struct DirEntry {
    /// The entry's full path.
    pub path: String,
    /// Whether the entry is a directory.
    pub is_dir: bool,
    /// Whether the entry is a regular file.
    pub is_file: bool,
    /// The part of the file name after its last dot, if there is one.
    pub extension: Option<String>,
}

/// What one directory offers: its parent and subdirectories, its recipe files
/// and its add-on archives, each in the order the file system gave them.
pub struct DirectoryContents {
    pub directories: Vec<String>,
    pub txt_files: Vec<String>,
    pub mcaddon_files: Vec<String>,
}

/// The extension of a recipe file.
pub open spec fn txt_extension() -> Seq<char> {
    seq!['t', 'x', 't']
}

/// The extension of an add-on archive.
pub open spec fn mcaddon_extension() -> Seq<char> {
    seq!['m', 'c', 'a', 'd', 'd', 'o', 'n']
}

/// The entry is a regular file with the given extension.
pub open spec fn is_file_with_extension(e: DirEntry, ext: Seq<char>) -> bool {
    e.is_file && match e.extension {
        Some(x) => x@ == ext,
        None => false,
    }
}

/// The paths of the entries that are directories, in order.
pub open spec fn subdirectories(entries: Seq<DirEntry>) -> Seq<String>
    decreases entries.len(),
{
    if entries.len() == 0 {
        seq![]
    } else {
        let before = subdirectories(entries.drop_last());
        if entries.last().is_dir {
            before.push(entries.last().path)
        } else {
            before
        }
    }
}

/// The paths of the entries that are files with the given extension, in order.
pub open spec fn files_with_extension(entries: Seq<DirEntry>, ext: Seq<char>) -> Seq<String>
    decreases entries.len(),
{
    if entries.len() == 0 {
        seq![]
    } else {
        let before = files_with_extension(entries.drop_last(), ext);
        if is_file_with_extension(entries.last(), ext) {
            before.push(entries.last().path)
        } else {
            before
        }
    }
}

/// The parent directory, when there is one, as a list of zero or one path.
pub open spec fn parent_entry(parent: Option<String>) -> Seq<String> {
    match parent {
        Some(p) => seq![p],
        None => seq![],
    }
}

/// The directory list: the parent first, if any, then every subdirectory.
pub open spec fn directory_list(parent: Option<String>, entries: Seq<DirEntry>) -> Seq<String> {
    parent_entry(parent) + subdirectories(entries)
}

/// Every path in the subdirectory list is that of an entry that is a
/// directory, and every entry that is a directory has its path there.
pub proof fn lemma_subdirectories_exact(entries: Seq<DirEntry>, p: String)
    ensures
        subdirectories(entries).contains(p) <==> exists|j: int|
            0 <= j < entries.len() && #[trigger] entries[j].is_dir && entries[j].path == p,
    decreases entries.len(),
{
    if entries.len() > 0 {
        let init = entries.drop_last();
        lemma_subdirectories_exact(init, p);
        let last = entries.len() - 1;
        if subdirectories(entries).contains(p) {
            if subdirectories(init).contains(p) {
                let j = choose|j: int| 0 <= j < init.len() && #[trigger] init[j].is_dir && init[j].path == p;
                assert(entries[j] == init[j]);
            } else {
                assert(entries[last].is_dir && entries[last].path == p);
            }
        }
        if exists|j: int| 0 <= j < entries.len() && #[trigger] entries[j].is_dir && entries[j].path == p {
            let j = choose|j: int| 0 <= j < entries.len() && #[trigger] entries[j].is_dir && entries[j].path == p;
            if j < last {
                assert(init[j] == entries[j]);
                let k = choose|k: int| 0 <= k < subdirectories(init).len() && subdirectories(init)[k] == p;
                assert(subdirectories(entries)[k] == p);
            } else {
                assert(subdirectories(entries)[subdirectories(entries).len() - 1] == p);
            }
        }
    }
}

/// Every path in the list of files with an extension is that of a file entry
/// with that extension, and every such entry has its path there.
pub proof fn lemma_files_with_extension_exact(entries: Seq<DirEntry>, ext: Seq<char>, p: String)
    ensures
        files_with_extension(entries, ext).contains(p) <==> exists|j: int|
            0 <= j < entries.len() && #[trigger] is_file_with_extension(entries[j], ext)
                && entries[j].path == p,
    decreases entries.len(),
{
    if entries.len() > 0 {
        let init = entries.drop_last();
        let f = files_with_extension(entries, ext);
        let g = files_with_extension(init, ext);
        lemma_files_with_extension_exact(init, ext, p);
        let last = entries.len() - 1;
        if f.contains(p) {
            if g.contains(p) {
                let j = choose|j: int|
                    0 <= j < init.len() && #[trigger] is_file_with_extension(init[j], ext)
                        && init[j].path == p;
                assert(entries[j] == init[j]);
            } else {
                assert(is_file_with_extension(entries[last], ext) && entries[last].path == p);
            }
        }
        if exists|j: int|
            0 <= j < entries.len() && #[trigger] is_file_with_extension(entries[j], ext)
                && entries[j].path == p {
            let j = choose|j: int|
                0 <= j < entries.len() && #[trigger] is_file_with_extension(entries[j], ext)
                    && entries[j].path == p;
            if j < last {
                assert(init[j] == entries[j]);
                let k = choose|k: int| 0 <= k < g.len() && g[k] == p;
                assert(f[k] == p);
            } else {
                assert(f[f.len() - 1] == p);
            }
        }
    }
}

/// Sorts the entries of a directory into its directory list (the parent
/// first, if there is one), its recipe files and its add-on archives.
pub fn load_directory_contents(parent: Option<String>, entries: &Vec<DirEntry>) -> (r:
    DirectoryContents)
    ensures
        r.directories@ == directory_list(parent, entries@),
        r.txt_files@ == files_with_extension(entries@, txt_extension()),
        r.mcaddon_files@ == files_with_extension(entries@, mcaddon_extension()),
{
    let txt = "txt".to_owned();
    let mcaddon = "mcaddon".to_owned();
    proof {
        reveal_strlit("txt");
        reveal_strlit("mcaddon");
        assert(txt@ =~= txt_extension());
        assert(mcaddon@ =~= mcaddon_extension());
    }
    let mut directories: Vec<String> = Vec::new();
    match parent {
        Some(p) => directories.push(p),
        None => {},
    }
    let ghost prefix = directories@;
    let mut txt_files: Vec<String> = Vec::new();
    let mut mcaddon_files: Vec<String> = Vec::new();
    let mut i: usize = 0;
    while i < entries.len()
        invariant
            i <= entries@.len(),
            prefix == parent_entry(parent),
            txt@ == txt_extension(),
            mcaddon@ == mcaddon_extension(),
            directories@ == prefix + subdirectories(entries@.take(i as int)),
            txt_files@ == files_with_extension(entries@.take(i as int), txt_extension()),
            mcaddon_files@ == files_with_extension(entries@.take(i as int), mcaddon_extension()),
        decreases entries@.len() - i,
    {
        let e = &entries[i];
        proof {
            assert(entries@.take(i + 1).drop_last() =~= entries@.take(i as int));
            assert(entries@.take(i + 1).last() == *e);
        }
        if e.is_dir {
            directories.push(e.path.clone());
            proof {
                assert(directories@ =~= prefix + subdirectories(entries@.take(i + 1)));
            }
        }
        if e.is_file {
            match &e.extension {
                Some(x) => {
                    if *x == txt {
                        txt_files.push(e.path.clone());
                    }
                    if *x == mcaddon {
                        mcaddon_files.push(e.path.clone());
                    }
                },
                None => {},
            }
        }
        i += 1;
    }
    proof {
        assert(entries@.take(i as int) =~= entries@);
    }
    DirectoryContents { directories, txt_files, mcaddon_files }
}

} // verus!
