//! Control groups (v2) of containers: where a container's group lives, the
//! interface files and values that set its limits, and how the group of the
//! current process is read from `/proc/<pid>/cgroup`.
use vstd::prelude::*;
use crate::cli::is_white_space;
use crate::paths::{join_path, path_exists, path_join};
use crate::text::{
    chars_of, decimal, find_first, lemma_prefix_len_before, range_equals,
    prefix_len_before, string_of_range, u64_to_decimal,
};

verus! {

/// A control group (v2) directory of a container.
pub struct Cgroup {
    pub path: String,
}

/// Errors of the control-group logic.
#[derive(Debug, PartialEq, Eq)]
pub enum CgroupError {
    /// The group directory does not exist.
    NotFound(String),
}

/// A value to write into one interface file of a group.
pub struct CgroupSetting {
    pub file: String,
    pub value: String,
}

/// The value written to `memory.max`: "max" for no limit (0), else the byte count.
pub open spec fn memory_max_value(limit_bytes: u64) -> Seq<char> {
    if limit_bytes == 0 {
        "max"@
    } else {
        decimal(limit_bytes as nat)
    }
}

impl Cgroup {
    /// The group of container `container_id` below `parent`.
    pub fn at(parent: &str, container_id: &str) -> (c: Self)
        ensures
            c.path@ == path_join(parent@, container_id@),
    {
        Cgroup { path: join_path(parent, container_id) }
    }

    /// The group at `path`, given whether that directory exists.
    pub fn open_checked(path: String, exists: bool) -> (r: Result<Self, CgroupError>)
        ensures
            exists <==> r is Ok,
            r matches Ok(c) ==> c.path == path,
            r matches Err(e) ==> e == CgroupError::NotFound(path),
    {
        if !exists {
            return Err(CgroupError::NotFound(path));
        }
        Ok(Cgroup { path })
    }

    /// Opens an existing group by path; a path that does not exist is refused.
    pub fn from_path(path: String) -> (r: Result<Self, CgroupError>)
        ensures
            r matches Ok(c) ==> c.path == path,
            r matches Err(e) ==> e == CgroupError::NotFound(path),
    {
        let exists = path_exists(path.as_str());
        Self::open_checked(path, exists)
    }

    /// The group's directory.
    pub fn path(&self) -> (r: &str)
        ensures
            r@ == self.path@,
    {
        self.path.as_str()
    }

    /// The parent's controller file and the value that enables the memory
    /// and cpu controllers for child groups.
    pub fn subtree_control_setting(parent: &str) -> (s: CgroupSetting)
        ensures
            s.file@ == path_join(parent@, "cgroup.subtree_control"@),
            s.value@ == "+memory +cpu"@,
    {
        CgroupSetting {
            file: join_path(parent, "cgroup.subtree_control"),
            value: "+memory +cpu".to_owned(),
        }
    }

    /// Setting a memory limit in bytes; 0 means unlimited.
    pub fn memory_limit_setting(&self, limit_bytes: u64) -> (s: CgroupSetting)
        ensures
            s.file@ == path_join(self.path@, "memory.max"@),
            s.value@ == memory_max_value(limit_bytes),
    {
        let value = if limit_bytes == 0 { "max".to_owned() } else { u64_to_decimal(limit_bytes) };
        CgroupSetting { file: join_path(self.path.as_str(), "memory.max"), value }
    }

    /// Setting the CPU weight.
    pub fn cpu_weight_setting(&self, weight: u64) -> (s: CgroupSetting)
        ensures
            s.file@ == path_join(self.path@, "cpu.weight"@),
            s.value@ == decimal(weight as nat),
    {
        CgroupSetting { file: join_path(self.path.as_str(), "cpu.weight"), value: u64_to_decimal(weight) }
    }

    /// Moving process `pid` into the group.
    pub fn add_process_setting(&self, pid: u32) -> (s: CgroupSetting)
        ensures
            s.file@ == path_join(self.path@, "cgroup.procs"@),
            s.value@ == decimal(pid as nat),
    {
        CgroupSetting { file: join_path(self.path.as_str(), "cgroup.procs"), value: u64_to_decimal(pid as u64) }
    }
}

/// Whether `name` stands at position `i` of `s` as a whole white-space
/// separated word: it is there, and nothing but white space or the ends of
/// `s` lie on either side.
pub open spec fn word_at(s: Seq<char>, name: Seq<char>, i: int) -> bool {
    &&& 0 <= i && i + name.len() <= s.len()
    &&& s.subrange(i, i + name.len()) == name
    &&& (i == 0 || is_white_space(s[i - 1]))
    &&& (i + name.len() == s.len() || is_white_space(s[i + name.len()]))
}

/// Whether `s`, a white-space separated list of names (the contents of a
/// `cgroup.subtree_control` file), lists `name`: a non-empty name without
/// white space that is one of the words of `s`.
pub open spec fn lists_name(s: Seq<char>, name: Seq<char>) -> bool {
    &&& name.len() > 0
    &&& forall|k: int| 0 <= k < name.len() ==> !is_white_space(#[trigger] name[k])
    &&& exists|i: int| word_at(s, name, i)
}

/// Whether every controller is listed by name in the contents of a
/// `cgroup.subtree_control` file.
pub open spec fn all_controllers_listed(ctrls: Seq<char>, controllers: Seq<Seq<char>>) -> bool {
    forall|i: int| 0 <= i < controllers.len() ==> lists_name(ctrls, #[trigger] controllers[i])
}

/// Whether a character is white space.
fn white_space(c: char) -> (r: bool)
    ensures
        r == is_white_space(c),
{
    ('\u{9}' <= c && c <= '\u{d}') || c == ' ' || c == '\u{85}' || c == '\u{a0}' || c == '\u{1680}'
        || ('\u{2000}' <= c && c <= '\u{200a}') || c == '\u{2028}' || c == '\u{2029}' || c == '\u{202f}'
        || c == '\u{205f}' || c == '\u{3000}'
}

/// Whether `hay` lists `name` as one of its words.
fn lists_word(hay: &Vec<char>, name: &Vec<char>) -> (r: bool)
    ensures
        r == lists_name(hay@, name@),
{
    let n = name.len();
    if n == 0 {
        return false;
    }
    let mut k: usize = 0;
    while k < n
        invariant
            n == name@.len(),
            k <= n,
            forall|j: int| 0 <= j < k ==> !is_white_space(#[trigger] name@[j]),
        decreases n - k,
    {
        if white_space(name[k]) {
            assert(!lists_name(hay@, name@));
            return false;
        }
        k += 1;
    }
    if hay.len() < n {
        assert forall|i: int| !word_at(hay@, name@, i) by {}
        return false;
    }
    let hlen = hay.len();
    let last = hlen - n;
    let mut i: usize = 0;
    while i <= last
        invariant
            hlen == hay@.len(),
            n == name@.len(),
            n > 0,
            last + n == hay@.len(),
            i <= last + 1,
            forall|j: int| 0 <= j < n ==> !is_white_space(#[trigger] name@[j]),
            forall|j: int| 0 <= j < i ==> !word_at(hay@, name@, j),
        decreases last + 1 - i,
    {
        assert(i + n <= hlen);
        let end = i + n;
        let before = i == 0 || white_space(hay[i - 1]);
        let after = end == hay.len() || white_space(hay[end]);
        if before && after && range_equals(hay, i, end, name) {
            assert(word_at(hay@, name@, i as int));
            return true;
        }
        i += 1;
    }
    assert forall|j: int| !word_at(hay@, name@, j) by {
        if 0 <= j && j + n <= hay@.len() {
            assert(j < i);
        }
    }
    false
}

/// Checks that each of `controllers` is listed by name in `ctrls`.
pub fn controllers_enabled(ctrls: &str, controllers: &Vec<String>) -> (r: bool)
    ensures
        r == all_controllers_listed(ctrls@, crate::text::views(controllers@)),
{
    let hay = chars_of(ctrls);
    let mut i: usize = 0;
    while i < controllers.len()
        invariant
            i <= controllers@.len(),
            hay@ == ctrls@,
            forall|k: int| 0 <= k < i ==> lists_name(ctrls@, #[trigger] crate::text::views(controllers@)[k]),
        decreases controllers@.len() - i,
    {
        let name = chars_of(controllers[i].as_str());
        if !lists_word(&hay, &name) {
            assert(!lists_name(ctrls@, crate::text::views(controllers@)[i as int]));
            return false;
        }
        i += 1;
    }
    true
}

/// The line at the start of `s` (up to its '\n'), without a '\r' that ends
/// it just before the '\n'.
pub open spec fn leading_line(s: Seq<char>) -> Seq<char> {
    let n = prefix_len_before(s, '\n');
    let raw = s.take(n);
    if n < s.len() && n > 0 && raw.last() == '\r' {
        raw.drop_last()
    } else {
        raw
    }
}

/// Whether a line is the cgroup v2 entry ("0::" followed by the path).
pub open spec fn is_v2_line(line: Seq<char>) -> bool {
    line.len() >= 3 && line[0] == '0' && line[1] == ':' && line[2] == ':'
}

/// The path of the first cgroup v2 entry among the lines of `s`, if any.
pub open spec fn v2_entry(s: Seq<char>) -> Option<Seq<char>>
    decreases s.len(),
{
    if s.len() == 0 {
        None
    } else {
        let n = prefix_len_before(s, '\n');
        if is_v2_line(leading_line(s)) {
            Some(leading_line(s).skip(3))
        } else if 0 <= n < s.len() {
            v2_entry(s.skip(n + 1))
        } else {
            None
        }
    }
}

/// `s` without its leading '/' characters.
pub open spec fn trim_leading_slashes(s: Seq<char>) -> Seq<char>
    decreases s.len(),
{
    if s.len() > 0 && s[0] == '/' {
        trim_leading_slashes(s.drop_first())
    } else {
        s
    }
}

/// The group path of the current process, relative to the cgroup v2 mount,
/// read from the contents of `/proc/<pid>/cgroup`: the first "0::" line, without
/// that prefix and without leading '/'. `None` when there is no such line.
pub fn cgroup_v2_relative_path(content: &str) -> (r: Option<String>)
    ensures
        match v2_entry(content@) {
            Some(p) => r matches Some(v) && v@ == trim_leading_slashes(p),
            None => r is None,
        },
{
    let chars = chars_of(content);
    let mut pos: usize = 0;
    assert(chars@.skip(0) =~= chars@);
    while pos < chars.len()
        invariant
            pos <= chars@.len(),
            v2_entry(content@) == v2_entry(chars@.skip(pos as int)),
            chars@ == content@,
        decreases chars@.len() - pos,
    {
        let ghost rest = chars@.skip(pos as int);
        // end of the current line
        let mut end = pos;
        while end < chars.len() && chars[end] != '\n'
            invariant
                pos <= end <= chars@.len(),
                forall|k: int| pos <= k < end ==> chars@[k] != '\n',
            decreases chars@.len() - end,
        {
            end += 1;
        }
        proof {
            lemma_prefix_len_before(rest, '\n');
            assert forall|k: int| 0 <= k < end - pos implies rest[k] != '\n' by {
                assert(rest[k] == chars@[pos + k]);
            }
            if end < chars@.len() {
                assert(rest[end - pos] == '\n');
            }
            assert(prefix_len_before(rest, '\n') == end - pos);
        }
        let mut line_end = end;
        if end < chars.len() && end > pos && chars[end - 1] == '\r' {
            line_end = end - 1;
        }
        assert(chars@.subrange(pos as int, line_end as int) =~= leading_line(rest));
        if line_end - pos >= 3 && chars[pos] == '0' && chars[pos + 1] == ':' && chars[pos + 2] == ':' {
            let mut start = pos + 3;
            while start < line_end && chars[start] == '/'
                invariant
                    pos + 3 <= start <= line_end <= chars@.len(),
                    trim_leading_slashes(chars@.subrange(pos + 3, line_end as int))
                        == trim_leading_slashes(chars@.subrange(start as int, line_end as int)),
                decreases line_end - start,
            {
                assert(chars@.subrange(start as int, line_end as int).drop_first() =~= chars@.subrange(
                    start + 1,
                    line_end as int,
                ));
                start += 1;
            }
            assert(leading_line(rest).skip(3) =~= chars@.subrange(pos + 3, line_end as int));
            return Some(string_of_range(&chars, start, line_end));
        }
        if end >= chars.len() {
            return None;
        }
        assert(rest.skip(end - pos + 1) =~= chars@.skip(end + 1));
        pos = end + 1;
    }
    assert(chars@.skip(pos as int).len() == 0);
    None
}

/// The directory of the current process's group below the cgroup v2 mount.
pub open spec fn own_group_dir(relative: Seq<char>) -> Seq<char> {
    path_join("/sys/fs/cgroup"@, relative)
}

/// Where the search for a group with the wanted controllers starts.
pub fn cgroup_walk_start(relative: &str) -> (r: String)
    ensures
        r@ == own_group_dir(relative@),
{
    join_path("/sys/fs/cgroup", relative)
}

/// The parent of a path as `Path::parent` computes it: the path without its
/// final component, `None` for a root or an empty path.
pub uninterp spec fn parent_of(path: Seq<char>) -> Option<Seq<char>>;

/// `Path::parent`. The contract claims only that the result is the one named
/// `parent_of` of the path; how components are split is not restated.
#[verifier::external_body]
fn parent_path(path: &str) -> (r: Option<String>)
    ensures
        match r {
            Some(p) => parent_of(path@) == Some(p@),
            None => parent_of(path@) is None,
        },
{
    match std::path::Path::new(path).parent() {
        Some(p) => Some(p.to_string_lossy().into_owned()),
        None => None,
    }
}

/// One step of the search, from the group of the current process upwards,
/// for a group whose `cgroup.subtree_control` lists the wanted controllers.
#[derive(Debug, PartialEq, Eq)]
pub enum WalkStep {
    /// The group looked at is the one wanted.
    Found,
    /// Look at this parent next.
    Up(String),
    /// There is no parent left to look at.
    GiveUp,
}

/// The view of an optional string.
pub open spec fn opt_chars(s: Option<String>) -> Option<Seq<char>> {
    match s {
        Some(v) => Some(v@),
        None => None,
    }
}

/// The step taken at `current`, given the contents of its
/// `cgroup.subtree_control` (`None` when the file is missing) and its parent:
/// a file listing every wanted controller ends the search there; otherwise
/// the search moves to the parent, and gives up when there is none or the
/// parent is `current` itself.
pub open spec fn walk_step_is(
    r: WalkStep,
    current: Seq<char>,
    subtree_control: Option<Seq<char>>,
    controllers: Seq<Seq<char>>,
    parent: Option<Seq<char>>,
) -> bool {
    if subtree_control is Some && all_controllers_listed(subtree_control->0, controllers) {
        r is Found
    } else {
        match parent {
            Some(p) => if p == current {
                r is GiveUp
            } else {
                r matches WalkStep::Up(q) && q@ == p
            },
            None => r is GiveUp,
        }
    }
}

/// Decides one step of the search given the parent of `current`.
pub fn walk_decision(
    current: &str,
    subtree_control: &Option<String>,
    controllers: &Vec<String>,
    parent: Option<String>,
) -> (r: WalkStep)
    ensures
        walk_step_is(r, current@, opt_chars(*subtree_control), crate::text::views(controllers@), opt_chars(parent)),
{
    match subtree_control {
        Some(c) => {
            if controllers_enabled(c.as_str(), controllers) {
                return WalkStep::Found;
            }
        },
        None => {},
    }
    match parent {
        Some(p) => {
            let cur = current.to_owned();
            if p == cur {
                WalkStep::GiveUp
            } else {
                WalkStep::Up(p)
            }
        },
        None => WalkStep::GiveUp,
    }
}

/// One step of the search at `current`, its parent taken by `Path::parent`.
pub fn cgroup_walk_step(current: &str, subtree_control: &Option<String>, controllers: &Vec<String>) -> (r: WalkStep)
    ensures
        walk_step_is(r, current@, opt_chars(*subtree_control), crate::text::views(controllers@), parent_of(current@)),
{
    let parent = parent_path(current);
    walk_decision(current, subtree_control, controllers, parent)
}

} // verus!
