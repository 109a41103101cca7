use vstd::prelude::*;
use crate::paths::{file_name_of, last_component};
use crate::selection::{next_index, previous_index, strings_equal, SelectableList};

verus! {

/// The labels shown for a sequence of paths: the file name of each, in order.
pub open spec fn names_of(paths: Seq<Seq<char>>) -> Seq<Seq<char>> {
    paths.map_values(|p: Seq<char>| last_component(p))
}

/// The file name of each path, in order.
pub fn file_names(paths: &Vec<String>) -> (r: Vec<String>)
    ensures
        r.deep_view() == names_of(paths.deep_view()),
{
    let mut r: Vec<String> = Vec::new();
    let mut i: usize = 0;
    while i < paths.len()
        invariant
            i <= paths.len(),
            r.deep_view() == names_of(paths.deep_view().subrange(0, i as int)),
        decreases paths.len() - i,
    {
        let name = file_name_of(paths[i].as_str());
        let ghost before = r.deep_view();
        r.push(name);
        proof {
            assert(r.deep_view() =~= before.push(name@));
            assert(names_of(paths.deep_view().subrange(0, i + 1)) =~= names_of(
                paths.deep_view().subrange(0, i as int),
            ).push(last_component(paths.deep_view()[i as int])));
        }
        i += 1;
    }
    proof {
        assert(paths.deep_view().subrange(0, paths.len() as int) =~= paths.deep_view());
    }
    r
}

/// The browse listing: a directory, the paths of its entries, and their file names
/// under a cursor.
pub struct DirListState {
    pub current_dir_path: String,
    pub list: SelectableList,
    pub current_dir_file_paths: Vec<String>,
}

impl DirListState {
    /// The cursor points into the list, and label `i` is the file name of path `i`.
    pub open spec fn wf(&self) -> bool {
        &&& self.list.wf()
        &&& self.list.labels() == names_of(self.current_dir_file_paths.deep_view())
    }

    /// The path of the entry to open: the one under the cursor, or the first one
    /// when nothing is selected; `None` when there is no such entry.
    pub open spec fn target(&self) -> Option<Seq<char>> {
        let i = match self.list.selection() {
            Some(i) => i as int,
            None => 0,
        };
        if i < self.current_dir_file_paths.len() {
            Some(self.current_dir_file_paths.deep_view()[i])
        } else {
            None
        }
    }

    /// A listing of `current_dir_path` with the given entries and no cursor.
    pub fn new(current_dir_path: String, paths: Vec<String>) -> (r: DirListState)
        ensures
            r.wf(),
            r.current_dir_path@ == current_dir_path@,
            r.current_dir_file_paths.deep_view() == paths.deep_view(),
            r.list.selection() is None,
    {
        let names = file_names(&paths);
        DirListState { current_dir_path, list: SelectableList::new(names), current_dir_file_paths: paths }
    }

    /// Takes a fresh listing. When the paths are unchanged the cursor stays; otherwise
    /// the new entries replace the old and the cursor is dropped.
    pub fn set_items(&mut self, paths: Vec<String>)
        requires
            old(self).wf(),
        ensures
            final(self).wf(),
            final(self).current_dir_path == old(self).current_dir_path,
            final(self).current_dir_file_paths.deep_view() == paths.deep_view(),
            old(self).current_dir_file_paths.deep_view() == paths.deep_view() ==> final(self).list.selection()
                == old(self).list.selection(),
            old(self).current_dir_file_paths.deep_view() != paths.deep_view() ==> final(self).list.selection() is None,
    {
        let names = file_names(&paths);
        self.list.set_items(names);
        if !strings_equal(&self.current_dir_file_paths, &paths) {
            self.current_dir_file_paths = paths;
            self.list.unselect();
        } else {
            proof {
                assert(self.current_dir_file_paths.deep_view() =~= paths.deep_view());
            }
        }
    }

    /// The path to open, as `target` gives it.
    pub fn selected_path(&self) -> (r: Option<String>)
        ensures
            match r {
                Some(p) => self.target() == Some(p@),
                None => self.target() is None,
            },
    {
        let i = match self.list.selected() {
            Some(i) => i,
            None => 0,
        };
        if i < self.current_dir_file_paths.len() {
            Some(self.current_dir_file_paths[i].clone())
        } else {
            None
        }
    }

    /// Moves the cursor one entry down, wrapping to the top.
    pub fn next(&mut self)
        requires
            old(self).wf(),
        ensures
            final(self).wf(),
            final(self).current_dir_path == old(self).current_dir_path,
            final(self).current_dir_file_paths == old(self).current_dir_file_paths,
            final(self).list.labels() == old(self).list.labels(),
            final(self).list.selection() == next_index(old(self).list.selection(), old(self).list.labels().len()),
    {
        self.list.next();
    }

    /// Moves the cursor one entry up, wrapping to the bottom.
    pub fn previous(&mut self)
        requires
            old(self).wf(),
        ensures
            final(self).wf(),
            final(self).current_dir_path == old(self).current_dir_path,
            final(self).current_dir_file_paths == old(self).current_dir_file_paths,
            final(self).list.labels() == old(self).list.labels(),
            final(self).list.selection() == previous_index(old(self).list.selection(), old(self).list.labels().len()),
    {
        self.list.previous();
    }

    pub fn unselect(&mut self)
        requires
            old(self).wf(),
        ensures
            final(self).wf(),
            final(self).current_dir_path == old(self).current_dir_path,
            final(self).current_dir_file_paths == old(self).current_dir_file_paths,
            final(self).list.labels() == old(self).list.labels(),
            final(self).list.selection() is None,
    {
        self.list.unselect();
    }
}

/// The entry under the cursor of a well-formed listing is the one to open, and the
/// file name of its path is the label shown for it.
pub proof fn lemma_target_is_selected_entry(d: DirListState, i: usize)
    requires
        d.wf(),
        d.list.selection() == Some(i),
    ensures
        d.target() == Some(d.current_dir_file_paths.deep_view()[i as int]),
        last_component(d.current_dir_file_paths.deep_view()[i as int]) == d.list.labels()[i as int],
{
}

} // verus!
