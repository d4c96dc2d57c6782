//! A unified view of the filesystems the shell reads, and the absolute
//! paths it navigates.  A path includes the partition name as its first
//! component, as if every partition were mounted at the root under its own
//! name.

use vstd::prelude::*;

verus! {

broadcast use vstd::string::group_string_axioms;

/// The filesystem formats the shell can read.
#[derive(Debug, Clone, Copy, PartialEq, Eq, Structural)]
pub enum FsType {
    Ext4,
    Fat,
}

impl FsType {
    /// The format's name as the shell prints it.
    pub fn as_str(&self) -> (r: &'static str)
        ensures
            *self is Ext4 ==> r@ == "EXT4"@,
            *self is Fat ==> r@ == "FAT"@,
    {
        match self {
            FsType::Ext4 => "EXT4",
            FsType::Fat => "FAT",
        }
    }
}

/// Why a read of a file or directory failed.
#[derive(Debug, Clone, Copy, PartialEq, Eq, Structural)]
pub enum FileError {
    NotFound,
    NotAFile,
    NotADirectory,
    Other,
}

/// What kind of entry a directory holds.
#[derive(Debug, Clone, Copy, PartialEq, Eq, Structural)]
pub enum FileType {
    File,
    Directory,
    Other,
}

/// One directory entry: its name, kind and byte size.
pub struct File {
    name: String,
    ftype: FileType,
    size: u64,
}

impl File {
    /// The entry's name.
    pub closed spec fn spec_name(&self) -> Seq<char> {
        self.name@
    }

    /// The entry's kind.
    pub closed spec fn spec_file_type(&self) -> FileType {
        self.ftype
    }

    /// The entry's byte size.
    pub closed spec fn spec_size(&self) -> u64 {
        self.size
    }

    /// Packs a directory entry.
    pub fn new(name: String, ftype: FileType, size: u64) -> (r: File)
        ensures
            r.spec_name() == name@,
            r.spec_file_type() == ftype,
            r.spec_size() == size,
    {
        File { name, ftype, size }
    }

    /// The entry's name.
    pub fn name(&self) -> (r: &str)
        ensures
            r@ == self.spec_name(),
    {
        self.name.as_str()
    }

    /// The entry's kind.
    pub fn file_type(&self) -> (r: &FileType)
        ensures
            *r == self.spec_file_type(),
    {
        &self.ftype
    }

    /// The entry's byte size.
    pub fn size(&self) -> (r: u64)
        ensures
            r == self.spec_size(),
    {
        self.size
    }

    /// Whether the entry is an ordinary file.
    pub fn is_regular_file(&self) -> (r: bool)
        ensures
            r == (self.spec_file_type() is File),
    {
        match self.ftype {
            FileType::File => true,
            _ => false,
        }
    }
}

/// A directory's entries.
pub struct Directory {
    files: Vec<File>,
}

impl Directory {
    /// Packs a listing.
    pub fn new(files: Vec<File>) -> (r: Directory)
        ensures
            r.spec_files() == files@,
    {
        Directory { files }
    }

    /// The directory's entries.
    pub closed spec fn spec_files(&self) -> Seq<File> {
        self.files@
    }

    /// The directory's entries.
    pub fn files(&self) -> (r: &Vec<File>)
        ensures
            r@ == self.spec_files(),
    {
        &self.files
    }
}

/// One interface over the filesystems the shell reads.  The program
/// implements it once per driver; paths are given relative to the
/// partition's root.
pub trait Filesystem {
    /// Reads a whole file.
    fn read_file(&mut self, path: &str) -> Result<Vec<u8>, FileError>;

    /// Lists a directory.
    fn read_directory(&mut self, path: &str) -> Result<Directory, FileError>;

    /// Which format the driver reads.
    fn format(&self) -> FsType;
}

/// The path separator.
pub open spec fn spec_is_sep(c: char) -> bool {
    c == '/'
}

/// The longest separator-free prefix of `s`.
pub open spec fn spec_first_component(s: Seq<char>) -> Seq<char>
    decreases s.len(),
{
    if s.len() == 0 || spec_is_sep(s[0]) {
        Seq::empty()
    } else {
        seq![s[0]] + spec_first_component(s.skip(1))
    }
}

/// The first component of a string that does not start with a separator is
/// nonempty and no longer than the string.
pub proof fn lemma_first_component_len(s: Seq<char>)
    ensures
        spec_first_component(s).len() <= s.len(),
        s.len() > 0 && !spec_is_sep(s[0]) ==> spec_first_component(s).len() >= 1,
    decreases s.len(),
{
    if s.len() > 0 && !spec_is_sep(s[0]) {
        lemma_first_component_len(s.skip(1));
    }
}

/// The nonempty runs of separator-free characters of `s`, in order.
pub open spec fn spec_split_path(s: Seq<char>) -> Seq<Seq<char>>
    decreases s.len(),
    via spec_split_path_decreases
{
    if s.len() == 0 {
        Seq::empty()
    } else if spec_is_sep(s[0]) {
        spec_split_path(s.skip(1))
    } else {
        seq![spec_first_component(s)] + spec_split_path(
            s.skip(spec_first_component(s).len() as int),
        )
    }
}

#[via_fn]
proof fn spec_split_path_decreases(s: Seq<char>) {
    lemma_first_component_len(s);
}

/// The single-dot component.
pub open spec fn spec_dot() -> Seq<char> {
    seq!['.']
}

/// The double-dot component.
pub open spec fn spec_dotdot() -> Seq<char> {
    seq!['.', '.']
}

/// One step of dot-merging: a single dot disappears, a double dot cancels
/// the component before it where one exists and is itself no double dot,
/// and everything else is kept.
pub open spec fn spec_merge_step(acc: Seq<Seq<char>>, c: Seq<char>) -> Seq<Seq<char>> {
    if c == spec_dot() {
        acc
    } else if c == spec_dotdot() {
        if acc.len() > 0 && acc.last() == spec_dotdot() {
            acc.push(c)
        } else if acc.len() > 0 {
            acc.drop_last()
        } else {
            acc.push(c)
        }
    } else {
        acc.push(c)
    }
}

/// Dot-merging folded over the first `n` components.
pub open spec fn spec_merge_fold(cs: Seq<Seq<char>>, n: int) -> Seq<Seq<char>>
    decreases n,
{
    if n <= 0 {
        Seq::empty()
    } else {
        spec_merge_step(spec_merge_fold(cs, n - 1), cs[n - 1])
    }
}

/// The merged components: all dots folded away, and a path that tries to
/// climb above the root collapsed to the root.
pub open spec fn spec_merge_dots(cs: Seq<Seq<char>>) -> Seq<Seq<char>> {
    let m = spec_merge_fold(cs, cs.len() as int);
    if m.len() > 0 && m[0] == spec_dotdot() {
        Seq::empty()
    } else {
        m
    }
}

/// The rendering of components `cs`: each preceded by one separator.
pub open spec fn spec_render(cs: Seq<Seq<char>>, sep: Seq<char>) -> Seq<char>
    decreases cs.len(),
{
    if cs.len() == 0 {
        Seq::empty()
    } else {
        spec_render(cs.drop_last(), sep) + sep + cs.last()
    }
}

/// An absolute path, beginning with the partition name.
#[derive(Debug)]
pub struct FsPath {
    pub components: Vec<String>,
}

/// The first component stops at the first separator or the end.
proof fn lemma_first_component_scan(t: Seq<char>, k: int)
    requires
        0 <= k <= t.len(),
        forall|i: int| 0 <= i < k ==> !spec_is_sep(#[trigger] t[i]),
        k == t.len() || spec_is_sep(t[k]),
    ensures
        spec_first_component(t) == t.subrange(0, k),
    decreases k,
{
    if k == 0 {
        assert(spec_first_component(t) =~= t.subrange(0, 0));
    } else {
        lemma_first_component_scan(t.skip(1), k - 1);
        assert(t.skip(1).subrange(0, k - 1) =~= t.subrange(1, k));
        assert(spec_first_component(t) =~= t.subrange(0, k));
    }
}

impl FsPath {
    /// The components as character sequences.
    pub open spec fn view_components(&self) -> Seq<Seq<char>> {
        self.components.deep_view()
    }

    /// The root path.
    pub fn new() -> (r: FsPath)
        ensures
            r.view_components() == Seq::<Seq<char>>::empty(),
    {
        let r = FsPath { components: Vec::new() };
        proof {
            assert(r.view_components() =~= Seq::<Seq<char>>::empty());
        }
        r
    }

    /// Splits a string at its separators into the nonempty components, and
    /// reports whether it began with a separator.
    fn parse_components(s: &str) -> (r: (Vec<String>, bool))
        ensures
            r.0.deep_view() == spec_split_path(s@),
            r.1 == (s@.len() > 0 && spec_is_sep(s@[0])),
    {
        let n = s.unicode_len();
        let is_absolute = n > 0 && s.get_char(0) == '/';
        let mut components: Vec<String> = Vec::new();
        let mut i: usize = 0;
        proof {
            assert(s@.skip(0) =~= s@);
            assert(components.deep_view() + spec_split_path(s@) =~= spec_split_path(s@));
        }
        while i < n
            invariant
                n == s@.len(),
                i <= n,
                components.deep_view() + spec_split_path(s@.skip(i as int)) == spec_split_path(
                    s@,
                ),
            decreases n - i,
        {
            if s.get_char(i) == '/' {
                proof {
                    assert(s@.skip(i as int).skip(1) =~= s@.skip(i as int + 1));
                    assert(components.deep_view() + spec_split_path(s@.skip(i as int + 1))
                        =~= components.deep_view() + spec_split_path(s@.skip(i as int)));
                }
                i = i + 1;
            } else {
                let start = i;
                i = i + 1;
                while i < n && s.get_char(i) != '/'
                    invariant
                        n == s@.len(),
                        start < i <= n,
                        forall|j: int| start <= j < i ==> !spec_is_sep(#[trigger] s@[j]),
                    decreases n - i,
                {
                    i = i + 1;
                }
                let comp = s.substring_char(start, i).to_owned();
                proof {
                    let t = s@.skip(start as int);
                    lemma_first_component_scan(t, i - start);
                    assert(t.subrange(0, i - start) =~= s@.subrange(start as int, i as int));
                    assert(t.skip(spec_first_component(t).len() as int) =~= s@.skip(i as int));
                    assert(spec_split_path(t) == seq![comp@] + spec_split_path(s@.skip(i as int)));
                }
                let ghost old_components = components.deep_view();
                components.push(comp);
                proof {
                    assert(components.deep_view() =~= old_components.push(comp@));
                    assert(components.deep_view() + spec_split_path(s@.skip(i as int))
                        =~= old_components + spec_split_path(s@.skip(start as int)));
                }
            }
        }
        proof {
            assert(s@.skip(n as int) =~= Seq::<char>::empty());
            assert(components.deep_view() + spec_split_path(s@.skip(n as int))
                =~= components.deep_view());
        }
        (components, is_absolute)
    }

    /// Parses an absolute path; a string that does not begin with the
    /// separator is rejected.
    pub fn parse(string_like: &str) -> (r: Result<FsPath, crate::errors::SimpleError>)
        ensures
            (string_like@.len() > 0 && spec_is_sep(string_like@[0])) ==> (r matches Ok(p)
                && p.view_components() == spec_split_path(string_like@)),
            !(string_like@.len() > 0 && spec_is_sep(string_like@[0])) ==> r is Err,
    {
        let (components, is_absolute) = FsPath::parse_components(string_like);
        if is_absolute {
            Ok(FsPath { components })
        } else {
            Err(crate::errors::SimpleError::new("Path is not absolute!"))
        }
    }

    /// Folds `.` and `..` components away, and collapses a path that tries
    /// to climb above the root.
    fn merge_dots(&mut self)
        ensures
            final(self).view_components() == spec_merge_dots(old(self).view_components()),
    {
        proof {
            reveal_strlit(".");
            reveal_strlit("..");
            assert("."@ =~= spec_dot());
            assert(".."@ =~= spec_dotdot());
        }
        let dot = String::from_str(".");
        let dotdot = String::from_str("..");
        let mut new_components: Vec<String> = Vec::new();
        let mut i: usize = 0;
        let ghost cs = self.view_components();
        while i < self.components.len()
            invariant
                i <= self.components@.len(),
                cs == self.components.deep_view(),
                cs.len() == self.components@.len(),
                dot@ == spec_dot(),
                dotdot@ == spec_dotdot(),
                new_components.deep_view() == spec_merge_fold(cs, i as int),
            decreases self.components@.len() - i,
        {
            let ghost pre = new_components.deep_view();
            let component = &self.components[i];
            assert(component@ == cs[i as int]);
            if component.eq(&dot) {
                // single dots disappear
            } else if component.eq(&dotdot) {
                let mut cancel = true;
                if new_components.len() > 0 {
                    let last = &new_components[new_components.len() - 1];
                    assert(last@ == pre.last());
                    if last.eq(&dotdot) {
                        cancel = false;
                    }
                } else {
                    cancel = false;
                }
                if cancel {
                    new_components.pop();
                } else {
                    new_components.push(component.clone());
                }
            } else {
                new_components.push(component.clone());
            }
            proof {
                if cs[i as int] == spec_dot() {
                    assert(new_components.deep_view() =~= spec_merge_step(pre, cs[i as int]));
                } else {
                    assert(new_components.deep_view() =~= spec_merge_step(pre, cs[i as int]));
                }
            }
            i = i + 1;
        }
        self.components = new_components;
        let ghost m = spec_merge_fold(cs, cs.len() as int);
        if self.components.len() > 0 {
            let dd = String::from_str("..");
            if self.components[0].eq(&dd) {
                self.components = Vec::new();
            }
        }
        proof {
            assert(self.components.deep_view() =~= spec_merge_dots(cs));
        }
    }

    /// Appends a path: an empty string changes nothing, an absolute path
    /// replaces this one, and a relative path is appended and dot-merged.
    pub fn push(&mut self, other: &str)
        ensures
            other@.len() == 0 ==> final(self).view_components() == old(self).view_components(),
            other@.len() > 0 && spec_is_sep(other@[0]) ==> final(self).view_components()
                == spec_split_path(other@),
            other@.len() > 0 && !spec_is_sep(other@[0]) ==> final(self).view_components()
                == spec_merge_dots(old(self).view_components() + spec_split_path(other@)),
    {
        if other.unicode_len() == 0 {
            return ;
        }
        let (mut components, is_absolute) = FsPath::parse_components(other);
        if is_absolute {
            self.components = components;
        } else {
            let ghost old_cs = self.view_components();
            let ghost pushed = components.deep_view();
            self.components.append(&mut components);
            proof {
                assert(self.components.deep_view() =~= old_cs + pushed);
            }
            self.merge_dots();
        }
    }

    /// Renders the path with the given separator before each component.  An
    /// empty path, or a path reduced to its partition name when the
    /// partition name is left out, renders as the root.
    fn render(&self, with_partition_name: bool, separator: &str) -> (r: String)
        ensures
            (self.view_components().len() == 0 || (!with_partition_name
                && self.view_components().len() == 1)) ==> r@ == "/"@,
            !(self.view_components().len() == 0 || (!with_partition_name
                && self.view_components().len() == 1)) ==> r@ == spec_render(
                self.view_components().skip(if with_partition_name { 0int } else { 1int }),
                separator@,
            ),
    {
        let ghost cs = self.view_components();
        if self.components.len() == 0 || (!with_partition_name && self.components.len() == 1) {
            return String::from_str("/");
        }
        let start: usize = if with_partition_name { 0 } else { 1 };
        let mut out = String::new();
        let mut i: usize = start;
        while i < self.components.len()
            invariant
                cs == self.components.deep_view(),
                cs.len() == self.components@.len(),
                start <= i <= cs.len(),
                out@ == spec_render(cs.subrange(start as int, i as int), separator@),
            decreases cs.len() - i,
        {
            let ghost pre = cs.subrange(start as int, i as int);
            out.append(separator);
            out.append(self.components[i].as_str());
            proof {
                let cur = cs.subrange(start as int, i as int + 1);
                assert(cur.drop_last() =~= pre);
                assert(cur.last() == cs[i as int]);
                assert(out@ =~= spec_render(cur, separator@));
            }
            i = i + 1;
        }
        proof {
            assert(cs.subrange(start as int, cs.len() as int) =~= cs.skip(start as int));
        }
        out
    }

    /// The path relative to its partition's root, separator-rendered.
    pub fn path_on_partition(&self) -> (r: String)
        ensures
            self.view_components().len() <= 1 ==> r@ == "/"@,
            self.view_components().len() > 1 ==> r@ == spec_render(
                self.view_components().skip(1),
                "/"@,
            ),
    {
        self.render(false, "/")
    }

    /// The whole path, partition name included.
    pub fn to_full_string(&self) -> (r: String)
        ensures
            self.view_components().len() == 0 ==> r@ == "/"@,
            self.view_components().len() > 0 ==> r@ == spec_render(self.view_components(), "/"@),
    {
        proof {
            assert(self.view_components().skip(0) =~= self.view_components());
        }
        self.render(true, "/")
    }

    /// The path as the firmware's text type, backslash-separated, with the
    /// partition name included or left out.  Fails exactly when the
    /// rendered path holds a character no UCS-2 unit can carry.
    pub fn to_uefi_string(&self, with_partition_name: bool) -> (r: Result<
        uefi::CString16,
        uefi::data_types::FromStrError,
    >)
        ensures
            ({
                let rendered = if self.view_components().len() == 0 || (!with_partition_name
                    && self.view_components().len() == 1) {
                    "/"@
                } else {
                    spec_render(
                        self.view_components().skip(
                            if with_partition_name {
                                0int
                            } else {
                                1int
                            },
                        ),
                        "\\"@,
                    )
                };
                (r is Ok) <==> spec_ucs2_encodable(rendered)
            }),
    {
        let rendered = self.render(with_partition_name, "\\");
        let r = str_to_cstring16(rendered.as_str());
        proof {
            let expected = if self.view_components().len() == 0 || (!with_partition_name
                && self.view_components().len() == 1) {
                "/"@
            } else {
                spec_render(
                    self.view_components().skip(
                        if with_partition_name {
                            0int
                        } else {
                            1int
                        },
                    ),
                    "\\"@,
                )
            };
            assert(rendered@ == expected);
        }
        r
    }

    /// The path in the form the firmware's file protocol takes: backslash
    /// separators, partition name left out.
    pub fn to_backslash_string(&self) -> (r: String)
        ensures
            self.view_components().len() <= 1 ==> r@ == "/"@,
            self.view_components().len() > 1 ==> r@ == spec_render(
                self.view_components().skip(1),
                "\\"@,
            ),
    {
        self.render(false, "\\")
    }
}

#[verifier::external_type_specification]
#[verifier::external_body]
pub struct ExCString16(uefi::CString16);

#[verifier::external_type_specification]
#[verifier::external_body]
pub struct ExFromStrError(uefi::data_types::FromStrError);

/// A string every character of which fits a single UCS-2 unit and which
/// carries no interior nul.
pub open spec fn spec_ucs2_encodable(s: Seq<char>) -> bool {
    forall|i: int| 0 <= i < s.len() ==> ((#[trigger] s[i]) as int <= 0xFFFF && s[i] != '\0')
}

/// Relies on uefi's `CString16::try_from(&str)`: it re-encodes the string
/// as UCS-2 with a trailing nul, and fails exactly when a character needs
/// more than one UTF-16 unit or is an interior nul.
#[verifier::external_body]
fn str_to_cstring16(s: &str) -> (r: Result<uefi::CString16, uefi::data_types::FromStrError>)
    ensures
        (r is Ok) <==> spec_ucs2_encodable(s@),
{
    uefi::CString16::try_from(s)
}

impl Clone for FsPath {
    /// Copies the path, components and all.
    fn clone(&self) -> (r: Self)
        ensures
            r.view_components() == self.view_components(),
    {
        let mut components: Vec<String> = Vec::new();
        let mut i: usize = 0;
        while i < self.components.len()
            invariant
                i <= self.components@.len(),
                components.deep_view() == self.components.deep_view().subrange(0, i as int),
            decreases self.components@.len() - i,
        {
            let ghost pre = components.deep_view();
            let c = self.components[i].clone();
            let ghost cv = c@;
            components.push(c);
            proof {
                assert(components.deep_view() =~= pre.push(cv));
                assert(pre.push(cv) =~= self.components.deep_view().subrange(0, i as int + 1));
            }
            i = i + 1;
        }
        proof {
            assert(self.components.deep_view().subrange(0, self.components@.len() as int)
                =~= self.components.deep_view());
        }
        FsPath { components }
    }
}

} // verus!
