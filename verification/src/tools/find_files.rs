//! Files found by name pattern.
use vstd::prelude::*;
use crate::pattern::{compile_glob, glob_compiles, glob_error, glob_match, glob_matches, Glob};
use crate::text::{concat2, string_from};

verus! {

/// The `find_files` tool.
pub struct FindFiles;

impl FindFiles {
    /// The tool's name.
    pub fn name() -> (r: &'static str)
        ensures
            r@ == "find_files"@,
    {
        "find_files"
    }

    /// The tool's description.
    pub fn description() -> (r: &'static str)
        ensures
            r@ == "Find files by name pattern using glob matching"@,
    {
        "Find files by name pattern using glob matching"
    }
}

/// A file or directory found.
#[derive(Debug)]
pub struct FileEntry {
    pub path: String,
    pub name: String,
    pub is_dir: bool,
}

/// What a search for files found.
#[derive(Debug)]
pub struct Output {
    pub success: bool,
    pub files: Vec<FileEntry>,
    pub count: u32,
    pub truncated: bool,
    pub error: Option<String>,
}

/// A search for files in progress: the pattern, the options, and the
/// entries found so far.
#[derive(Debug)]
pub struct FileSearch {
    pub pattern: Glob,
    pub max_results: u32,
    pub include_dirs: bool,
    pub files: Vec<FileEntry>,
    pub truncated: bool,
}

/// `e` is the entry for the file named `name` at `path`.
pub open spec fn entry_is(e: FileEntry, name: Seq<char>, path: Seq<char>, is_dir: bool) -> bool {
    e.name@ == name && e.path@ == path && e.is_dir == is_dir
}

impl FileSearch {
    /// Start a search for `pattern` with at most `max_results` entries
    /// (1000 by default); an invalid pattern is refused with the result
    /// that reports it.
    pub fn new(pattern: &str, max_results: Option<u32>, include_dirs: bool) -> (r: Result<FileSearch, Output>)
        ensures
            glob_compiles(pattern@) ==> (r matches Ok(s) && s.pattern.text() == pattern@ && s.max_results == match max_results {
                Some(n) => n,
                None => 1000,
            } && s.include_dirs == include_dirs && s.files@.len() == 0 && !s.truncated),
            !glob_compiles(pattern@) ==> (r matches Err(o) && !o.success && o.files@.len() == 0 && o.count == 0
                && !o.truncated && (o.error matches Some(e) && e@ == "Invalid glob pattern: "@ + glob_error(pattern@))),
    {
        match compile_glob(pattern) {
            Ok(g) => {
                let max = match max_results {
                    Some(n) => n,
                    None => 1000,
                };
                Ok(FileSearch { pattern: g, max_results: max, include_dirs, files: Vec::new(), truncated: false })
            },
            Err(e) => Err(
                Output {
                    success: false,
                    files: Vec::new(),
                    count: 0,
                    truncated: false,
                    error: Some(concat2("Invalid glob pattern: ", crate::text::chars_of(e.as_str()).as_slice())),
                },
            ),
        }
    }

    /// Consider one more walked entry; `true` when the result limit was
    /// reached and the walk stops.
    pub fn offer(&mut self, name: &str, path: &str, is_dir: bool) -> (stop: bool)
        ensures
            final(self).pattern == old(self).pattern,
            final(self).max_results == old(self).max_results,
            final(self).include_dirs == old(self).include_dirs,
            ({
                let wanted = (!is_dir || old(self).include_dirs) && (glob_matches(old(self).pattern.text(), name@)
                    || glob_matches(old(self).pattern.text(), path@));
                &&& !wanted ==> !stop && final(self).files@ == old(self).files@ && final(self).truncated
                    == old(self).truncated
                &&& wanted && old(self).files@.len() >= old(self).max_results ==> stop && final(self).truncated
                    && final(self).files@ == old(self).files@
                &&& wanted && old(self).files@.len() < old(self).max_results ==> !stop && final(self).truncated
                    == old(self).truncated && final(self).files@.len() == old(self).files@.len() + 1
                    && final(self).files@.drop_last() == old(self).files@ && entry_is(
                    final(self).files@.last(),
                    name@,
                    path@,
                    is_dir,
                )
            }),
    {
        if is_dir && !self.include_dirs {
            return false;
        }
        if !glob_match(&self.pattern, name) && !glob_match(&self.pattern, path) {
            return false;
        }
        if self.files.len() >= self.max_results as usize {
            self.truncated = true;
            return true;
        }
        let ghost before = self.files@;
        self.files.push(FileEntry { path: string_from(path), name: string_from(name), is_dir });
        proof {
            assert(self.files@.drop_last() =~= before);
        }
        false
    }

    /// The search's result.
    pub fn finish(self) -> (o: Output)
        ensures
            o.success && o.error is None,
            o.files == self.files,
            o.count == self.files@.len() as u32,
            o.truncated == self.truncated,
    {
        let count = #[verifier::truncate] (self.files.len() as u32);
        Output { success: true, files: self.files, count, truncated: self.truncated, error: None }
    }
}

/// The result for a base path that does not exist; an absent path is
/// shown as `<workspace_root>`.
pub fn path_not_found(path: Option<&str>) -> (o: Output)
    ensures
        !o.success && o.files@.len() == 0 && o.count == 0 && !o.truncated,
        o.error matches Some(e) && e@ == "Path not found: "@ + match path {
            Some(p) => p@,
            None => "<workspace_root>"@,
        },
{
    let shown = match path {
        Some(p) => crate::text::chars_of(p),
        None => crate::text::chars_of("<workspace_root>"),
    };
    Output { success: false, files: Vec::new(), count: 0, truncated: false, error: Some(concat2("Path not found: ", shown.as_slice())) }
}

} // verus!
