//! The workspace: the directory of input files, the `.parquet` files found
//! in it, and which of them are selected for processing.
use vstd::prelude::*;
use crate::expr::name_seq;

verus! {

/// One entry of a directory listing, as the file system reports it.
#[derive(Debug)]
pub struct DirEntry {
    pub path: String,
    pub is_file: bool,
    /// The file name's extension, if it has one.
    pub extension: Option<String>,
}

/// The chosen directory, its `.parquet` files, and the selected ones.
#[derive(Debug)]
pub struct Workspacer {
    pub directory: Option<String>,
    pub files: Vec<String>,
    pub selected_files: Vec<String>,
}

/// An entry is an input file: a regular file with the extension `parquet`.
pub open spec fn is_input(e: DirEntry) -> bool {
    e.is_file && (e.extension matches Some(x) && x@ == "parquet"@)
}

/// The paths of the input files of a listing, in listing order.
pub open spec fn input_paths(listing: Seq<DirEntry>) -> Seq<Seq<char>>
    decreases listing.len(),
{
    if listing.len() == 0 {
        Seq::empty()
    } else {
        let rest = input_paths(listing.drop_last());
        if is_input(listing.last()) {
            rest.push(listing.last().path@)
        } else {
            rest
        }
    }
}

/// The items of `sel` that `keep` holds, in order.
pub open spec fn kept(sel: Seq<Seq<char>>, keep: Seq<Seq<char>>) -> Seq<Seq<char>>
    decreases sel.len(),
{
    if sel.len() == 0 {
        Seq::empty()
    } else {
        let rest = kept(sel.drop_last(), keep);
        if keep.contains(sel.last()) {
            rest.push(sel.last())
        } else {
            rest
        }
    }
}

/// The items of `sel` other than `x`, in order.
pub open spec fn without(sel: Seq<Seq<char>>, x: Seq<char>) -> Seq<Seq<char>>
    decreases sel.len(),
{
    if sel.len() == 0 {
        Seq::empty()
    } else {
        let rest = without(sel.drop_last(), x);
        if sel.last() != x {
            rest.push(sel.last())
        } else {
            rest
        }
    }
}

fn contains_path(v: &Vec<String>, s: &String) -> (r: bool)
    ensures
        r == name_seq(v@).contains(s@),
{
    let mut i: usize = 0;
    while i < v.len()
        invariant
            i <= v@.len(),
            forall|j: int| 0 <= j < i ==> name_seq(v@)[j] != s@,
        decreases v.len() - i,
    {
        if v[i] == *s {
            proof {
                assert(name_seq(v@)[i as int] == s@);
            }
            return true;
        }
        i += 1;
    }
    false
}

impl Workspacer {
    pub open spec fn files_view(&self) -> Seq<Seq<char>> {
        name_seq(self.files@)
    }

    pub open spec fn selected_view(&self) -> Seq<Seq<char>> {
        name_seq(self.selected_files@)
    }

    /// A workspace with no directory, no files and nothing selected.
    pub fn new() -> (r: Workspacer)
        ensures
            r.directory is None,
            r.files@.len() == 0,
            r.selected_files@.len() == 0,
    {
        Workspacer { directory: None, files: Vec::new(), selected_files: Vec::new() }
    }

    /// Replaces the file list by the input files of `listing`, in listing order.
    pub fn get_parquet_files_in_directory(&mut self, listing: &Vec<DirEntry>)
        ensures
            final(self).files_view() == input_paths(listing@),
            final(self).directory == old(self).directory,
            final(self).selected_files == old(self).selected_files,
    {
        let parquet = "parquet".to_owned();
        proof {
            reveal_strlit("parquet");
        }
        let mut files: Vec<String> = Vec::new();
        let mut i: usize = 0;
        while i < listing.len()
            invariant
                i <= listing@.len(),
                parquet@ == "parquet"@,
                name_seq(files@) == input_paths(listing@.take(i as int)),
            decreases listing.len() - i,
        {
            let e = &listing[i];
            let keep = match &e.extension {
                Some(x) => e.is_file && *x == parquet,
                None => false,
            };
            proof {
                assert(listing@.take(i + 1).drop_last() == listing@.take(i as int));
                assert(keep == is_input(listing@[i as int]));
            }
            if keep {
                files.push(e.path.clone());
                proof {
                    assert(name_seq(files@) == input_paths(listing@.take(i as int)).push(
                        listing@[i as int].path@,
                    ));
                }
            }
            i += 1;
        }
        proof {
            assert(listing@.take(listing@.len() as int) == listing@);
        }
        self.files = files;
    }

    /// Drops from the selection every file that is not in the file list.
    pub fn validate_selected_files(&mut self)
        ensures
            final(self).selected_view() == kept(old(self).selected_view(), old(self).files_view()),
            final(self).directory == old(self).directory,
            final(self).files == old(self).files,
    {
        let mut sel: Vec<String> = Vec::new();
        let mut i: usize = 0;
        while i < self.selected_files.len()
            invariant
                i <= self.selected_files@.len(),
                *self == *old(self),
                name_seq(sel@) == kept(self.selected_view().take(i as int), self.files_view()),
            decreases self.selected_files.len() - i,
        {
            let s = &self.selected_files[i];
            let present = contains_path(&self.files, s);
            proof {
                assert(self.selected_view().take(i + 1).drop_last() == self.selected_view().take(
                    i as int,
                ));
                assert(self.selected_view().take(i + 1).last() == s@);
            }
            if present {
                sel.push(s.clone());
                proof {
                    assert(name_seq(sel@) == kept(
                        self.selected_view().take(i as int),
                        self.files_view(),
                    ).push(s@));
                }
            }
            i += 1;
        }
        proof {
            assert(self.selected_view().take(i as int) == self.selected_view());
        }
        self.selected_files = sel;
    }

    /// Reloads the file list from `listing`, the current content of the
    /// chosen directory, and drops selected files that are gone. Without a
    /// chosen directory nothing changes.
    pub fn refresh_files(&mut self, listing: &Vec<DirEntry>)
        ensures
            final(self).directory == old(self).directory,
            old(self).directory is Some ==> {
                &&& final(self).files_view() == input_paths(listing@)
                &&& final(self).selected_view() == kept(
                    old(self).selected_view(),
                    input_paths(listing@),
                )
            },
            old(self).directory is None ==> final(self).files == old(self).files
                && final(self).selected_files == old(self).selected_files,
    {
        if self.directory.is_some() {
            self.get_parquet_files_in_directory(listing);
            self.validate_selected_files();
        }
    }

    /// Makes `dir` the chosen directory, with `listing` its content.
    pub fn select_directory(&mut self, dir: String, listing: &Vec<DirEntry>)
        ensures
            final(self).directory == Some(dir),
            final(self).files_view() == input_paths(listing@),
            final(self).selected_view() == kept(old(self).selected_view(), input_paths(listing@)),
    {
        self.directory = Some(dir);
        self.get_parquet_files_in_directory(listing);
        self.validate_selected_files();
    }

    /// Empties the selection.
    pub fn clear_selected_files(&mut self)
        ensures
            final(self).selected_files@.len() == 0,
            final(self).directory == old(self).directory,
            final(self).files == old(self).files,
    {
        self.selected_files = Vec::new();
    }

    /// Selects every file of the file list, in its order.
    pub fn select_all_files(&mut self)
        ensures
            final(self).selected_view() == old(self).files_view(),
            final(self).directory == old(self).directory,
            final(self).files == old(self).files,
    {
        let mut sel: Vec<String> = Vec::new();
        let mut i: usize = 0;
        while i < self.files.len()
            invariant
                i <= self.files@.len(),
                *self == *old(self),
                name_seq(sel@) == self.files_view().take(i as int),
            decreases self.files.len() - i,
        {
            let f = self.files[i].clone();
            let ghost before = sel@;
            sel.push(f);
            proof {
                assert(f@ == self.files_view()[i as int]);
                assert(name_seq(sel@) == name_seq(before).push(f@));
                assert(name_seq(sel@) =~= self.files_view().take(i + 1));
            }
            i += 1;
        }
        proof {
            assert(self.files_view().take(i as int) == self.files_view());
        }
        self.selected_files = sel;
    }

    /// The chosen directory.
    pub fn get_directory(&self) -> (r: Option<&String>)
        ensures
            r == match &self.directory {
                Some(d) => Some(d),
                None => None::<&String>,
            },
    {
        match &self.directory {
            Some(d) => Some(d),
            None => None,
        }
    }

    /// Whether `file` is selected.
    pub fn is_selected(&self, file: &String) -> (r: bool)
        ensures
            r == self.selected_view().contains(file@),
    {
        contains_path(&self.selected_files, file)
    }

    /// Flips the selection of `file`: a selected file leaves the selection
    /// (every occurrence), any other is added at the end.
    pub fn toggle_selection(&mut self, file: &String)
        ensures
            old(self).selected_view().contains(file@) ==> final(self).selected_view() == without(
                old(self).selected_view(),
                file@,
            ),
            !old(self).selected_view().contains(file@) ==> final(self).selected_view() == old(
                self,
            ).selected_view().push(file@),
            final(self).directory == old(self).directory,
            final(self).files == old(self).files,
    {
        if !contains_path(&self.selected_files, file) {
            self.selected_files.push(file.clone());
            proof {
                assert(self.selected_view() == old(self).selected_view().push(file@));
            }
            return;
        }
        let mut sel: Vec<String> = Vec::new();
        let mut i: usize = 0;
        while i < self.selected_files.len()
            invariant
                i <= self.selected_files@.len(),
                *self == *old(self),
                name_seq(sel@) == without(self.selected_view().take(i as int), file@),
            decreases self.selected_files.len() - i,
        {
            let s = &self.selected_files[i];
            proof {
                assert(self.selected_view().take(i + 1).drop_last() == self.selected_view().take(
                    i as int,
                ));
                assert(self.selected_view().take(i + 1).last() == s@);
            }
            if *s != *file {
                sel.push(s.clone());
                proof {
                    assert(name_seq(sel@) == without(self.selected_view().take(i as int), file@).push(
                        s@,
                    ));
                }
            }
            i += 1;
        }
        proof {
            assert(self.selected_view().take(i as int) == self.selected_view());
        }
        self.selected_files = sel;
    }
}

} // verus!
