use vstd::prelude::*;
use vstd::string::*;
use crate::strings::{push_char, push_text, text};

verus! {

/// Where relative file names of a request are read from.
#[derive(Clone, Debug)]
pub struct ContextDir {
    pub current_dir: String,
    pub file_root: String,
}

/// `name` resolved against the directory `root`: an absolute name stays as
/// it is, a relative one is put under `root` with one `/` between them.
pub open spec fn joined_path(root: Seq<char>, name: Seq<char>) -> Seq<char> {
    if name.len() > 0 && name[0] == '/' {
        name
    } else if root.len() == 0 {
        name
    } else if root.last() == '/' {
        root + name
    } else {
        root + seq!['/'] + name
    }
}

impl ContextDir {
    pub fn new(current_dir: &str, file_root: &str) -> (r: ContextDir)
        ensures
            r.current_dir@ == current_dir@,
            r.file_root@ == file_root@,
    {
        ContextDir { current_dir: text(current_dir), file_root: text(file_root) }
    }

    /// The path under which the file `filename` is found.
    pub fn resolved_path(&self, filename: &str) -> (r: String)
        ensures
            r@ == joined_path(self.file_root@, filename@),
    {
        let root = self.file_root.as_str();
        let n = filename.unicode_len();
        let m = root.unicode_len();
        if n > 0 && filename.get_char(0) == '/' {
            return text(filename);
        }
        if m == 0 {
            return text(filename);
        }
        let mut out = text(root);
        if root.get_char(m - 1) != '/' {
            push_char(&mut out, '/');
        }
        push_text(&mut out, filename);
        out
    }
}

impl Default for ContextDir {
    fn default() -> (r: ContextDir)
        ensures
            r.current_dir@ == Seq::<char>::empty(),
            r.file_root@ == Seq::<char>::empty(),
    {
        ContextDir { current_dir: String::new(), file_root: String::new() }
    }
}

} // verus!
