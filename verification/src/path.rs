//! File paths as lists of components, and the names of output files.
//!
//! A path is held as its components, outermost first, the way a path of the
//! file system splits into a root, `.`, `..` and names. The stem and the
//! extension of a file are read off its last component.

use vstd::prelude::*;
use vstd::string::*;
use crate::format::OutputFormat;

verus! {

/// One component of a path.
#[derive(Clone, Debug, PartialEq, Eq, Hash)]
pub enum Component {
    /// The root directory.
    Root,
    /// The directory itself: `.`.
    Current,
    /// The directory above: `..`.
    Parent,
    /// The name of a file or a directory.
    Normal(String),
}

/// The abstract value of a `Component`.
pub enum ComponentView {
    Root,
    Current,
    Parent,
    Normal(Seq<char>),
}

impl View for Component {
    type V = ComponentView;

    open spec fn view(&self) -> ComponentView {
        match self {
            Component::Root => ComponentView::Root,
            Component::Current => ComponentView::Current,
            Component::Parent => ComponentView::Parent,
            Component::Normal(name) => ComponentView::Normal(name@),
        }
    }
}

/// A path: its components, outermost first.
#[derive(Clone, Debug, PartialEq, Eq, Hash)]
pub struct FilePath {
    pub components: Vec<Component>,
}

/// The abstract values of a list of components.
pub open spec fn views(components: Seq<Component>) -> Seq<ComponentView> {
    components.map_values(|c: Component| c@)
}

impl View for FilePath {
    type V = Seq<ComponentView>;

    open spec fn view(&self) -> Seq<ComponentView> {
        views(self.components@)
    }
}

/// The index of the last dot among the first `end` characters of `name`, or
/// -1 where there is none.
pub open spec fn last_dot(name: Seq<char>, end: int) -> int
    decreases end,
{
    if end <= 0 {
        -1
    } else if name[end - 1] == '.' {
        end - 1
    } else {
        last_dot(name, end - 1)
    }
}

/// The stem of a file name: what stands before its last dot; the whole name
/// where it has no dot, or none but a leading one.
pub open spec fn stem_of(name: Seq<char>) -> Seq<char> {
    let dot: int = last_dot(name, name.len() as int);
    if dot <= 0 {
        name
    } else {
        name.subrange(0, dot)
    }
}

/// The extension of a file name: what stands behind its last dot; none where
/// it has no dot, or none but a leading one.
pub open spec fn extension_of(name: Seq<char>) -> Option<Seq<char>> {
    let dot: int = last_dot(name, name.len() as int);
    if dot <= 0 {
        None
    } else {
        Some(name.subrange(dot + 1, name.len() as int))
    }
}

/// The extension is `arw`, in any mix of upper and lower case.
pub open spec fn is_raw_extension(ext: Seq<char>) -> bool {
    &&& ext.len() == 3
    &&& (ext[0] == 'a' || ext[0] == 'A')
    &&& (ext[1] == 'r' || ext[1] == 'R')
    &&& (ext[2] == 'w' || ext[2] == 'W')
}

/// The file name of a path: its last component, where that is a name.
pub open spec fn file_name(path: Seq<ComponentView>) -> Option<Seq<char>> {
    if path.len() > 0 {
        match path.last() {
            ComponentView::Normal(name) => Some(name),
            _ => None,
        }
    } else {
        None
    }
}

/// The path names a RAW file: it has a file name whose extension is `arw`.
pub open spec fn names_raw_file(path: Seq<ComponentView>) -> bool {
    match file_name(path) {
        Some(name) => match extension_of(name) {
            Some(ext) => is_raw_extension(ext),
            None => false,
        },
        None => false,
    }
}

/// The name of the output file: the stem of the input's file name (empty
/// where it has none), a dot, and the extension of the format.
pub open spec fn output_name(input: Seq<ComponentView>, format: OutputFormat) -> Seq<char> {
    let stem: Seq<char> = match file_name(input) {
        Some(name) => stem_of(name),
        None => Seq::empty(),
    };
    stem + "."@ + format.spec_extension()
}

/// The directory that a path lies in: the path without its file name, or the
/// path itself where it has none.
pub open spec fn directory_of(path: Seq<ComponentView>) -> Seq<ComponentView> {
    if file_name(path) is Some {
        path.drop_last()
    } else {
        path
    }
}

/// The output path of an input: the output name in the directory that was
/// asked for, or beside the input where none was.
pub open spec fn output_path(
    input: Seq<ComponentView>,
    output_dir: Option<Seq<ComponentView>>,
    format: OutputFormat,
) -> Seq<ComponentView> {
    let dir: Seq<ComponentView> = match output_dir {
        Some(dir) => dir,
        None => directory_of(input),
    };
    dir.push(ComponentView::Normal(output_name(input, format)))
}

/// Finds the last dot of a name.
fn find_last_dot(name: &str) -> (dot: Option<usize>)
    ensures
        match dot {
            Some(i) => i < name@.len() && i == last_dot(name@, name@.len() as int),
            None => last_dot(name@, name@.len() as int) == -1,
        },
{
    let mut end: usize = name.unicode_len();
    while end > 0
        invariant
            end <= name@.len(),
            last_dot(name@, name@.len() as int) == last_dot(name@, end as int),
        decreases end,
    {
        if name.get_char(end - 1) == '.' {
            return Some(end - 1);
        }
        end = end - 1;
    }
    None
}

impl FilePath {
    /// The file name: the last component, where that is a name.
    pub fn file_name(&self) -> (name: Option<&String>)
        ensures
            match name {
                Some(n) => file_name(self@) == Some(n@),
                None => file_name(self@) is None,
            },
    {
        let count: usize = self.components.len();
        if count == 0 {
            return None;
        }
        match &self.components[count - 1] {
            Component::Normal(name) => Some(name),
            _ => None,
        }
    }

    /// The stem of the file name, where the path has one.
    pub fn file_stem(&self) -> (stem: Option<String>)
        ensures
            match stem {
                Some(s) => file_name(self@) matches Some(name) && s@ == stem_of(name),
                None => file_name(self@) is None,
            },
    {
        match self.file_name() {
            None => None,
            Some(name) => {
                let text: &str = name.as_str();
                match find_last_dot(text) {
                    Some(dot) => {
                        if dot > 0 {
                            Some(String::from_str(text.substring_char(0, dot)))
                        } else {
                            Some(name.clone())
                        }
                    },
                    None => Some(name.clone()),
                }
            },
        }
    }

    /// The extension of the file name, where the path has a file name and
    /// that has an extension.
    pub fn extension(&self) -> (ext: Option<String>)
        ensures
            match ext {
                Some(e) => file_name(self@) matches Some(name) && extension_of(name) == Some(e@),
                None => file_name(self@) matches Some(name) ==> extension_of(name) is None,
            },
    {
        match self.file_name() {
            None => None,
            Some(name) => {
                let text: &str = name.as_str();
                match find_last_dot(text) {
                    Some(dot) => {
                        if dot > 0 {
                            let end: usize = text.unicode_len();
                            Some(String::from_str(text.substring_char(dot + 1, end)))
                        } else {
                            None
                        }
                    },
                    None => None,
                }
            },
        }
    }
}

/// Whether the path names a RAW file: whether its extension is `arw`, in any
/// mix of upper and lower case.
pub fn is_arw(path: &FilePath) -> (b: bool)
    ensures
        b == names_raw_file(path@),
{
    match path.extension() {
        None => false,
        Some(ext) => {
            let text: &str = ext.as_str();
            if text.unicode_len() != 3 {
                return false;
            }
            let a: char = text.get_char(0);
            let r: char = text.get_char(1);
            let w: char = text.get_char(2);
            (a == 'a' || a == 'A') && (r == 'r' || r == 'R') && (w == 'w' || w == 'W')
        },
    }
}

/// Copies the first `count` components of a path.
fn copy_components(path: &FilePath, count: usize) -> (out: Vec<Component>)
    requires
        count <= path.components@.len(),
    ensures
        views(out@) == path@.subrange(0, count as int),
{
    let mut out: Vec<Component> = Vec::new();
    let mut i: usize = 0;
    while i < count
        invariant
            i <= count <= path.components@.len(),
            out@.len() == i,
            views(out@) == path@.subrange(0, i as int),
        decreases count - i,
    {
        let copy: Component = match &path.components[i] {
            Component::Root => Component::Root,
            Component::Current => Component::Current,
            Component::Parent => Component::Parent,
            Component::Normal(name) => Component::Normal(name.clone()),
        };
        assert(copy@ == path@[i as int]);
        let ghost before: Seq<Component> = out@;
        out.push(copy);
        assert forall|j: int| 0 <= j < i + 1 implies views(out@)[j] == path@[j] by {
            if j < i {
                assert(views(before)[j] == path@.subrange(0, i as int)[j]);
            }
        }
        assert(views(out@) =~= path@.subrange(0, i + 1));
        i = i + 1;
    }
    out
}

/// Builds the output path of an input file: its stem with the extension of
/// the format, in `output_dir` where one is given, else beside the input.
pub fn make_output_path(input: &FilePath, output_dir: Option<&FilePath>, format: OutputFormat) -> (out:
    FilePath)
    ensures
        out@ == output_path(
            input@,
            match output_dir {
                Some(dir) => Some(dir@),
                None => None,
            },
            format,
        ),
{
    let stem: String = match input.file_stem() {
        Some(stem) => stem,
        None => String::new(),
    };
    let name: String = stem.concat(".").concat(format.extension());
    let mut components: Vec<Component> = match output_dir {
        Some(dir) => {
            let all: usize = dir.components.len();
            assert(dir@.subrange(0, all as int) =~= dir@);
            copy_components(dir, all)
        },
        None => {
            let all: usize = input.components.len();
            let keep: usize = if input.file_name().is_some() {
                all - 1
            } else {
                all
            };
            assert(input@.subrange(0, keep as int) =~= directory_of(input@));
            copy_components(input, keep)
        },
    };
    let ghost before: Seq<Component> = components@;
    components.push(Component::Normal(name));
    let out: FilePath = FilePath { components };
    assert forall|j: int| 0 <= j < before.len() implies out@[j] == views(before)[j] by {
        assert(out.components@[j] == before[j]);
    }
    assert(out@ =~= views(before).push(ComponentView::Normal(name@)));
    out
}

/// The last dot lies before `end`.
pub proof fn lemma_last_dot_bound(name: Seq<char>, end: int)
    ensures
        -1 <= last_dot(name, end),
        last_dot(name, end) < end || end <= 0,
        0 <= last_dot(name, end) ==> name[last_dot(name, end)] == '.',
    decreases end,
{
    if end > 0 && name[end - 1] != '.' {
        lemma_last_dot_bound(name, end - 1);
    }
}

/// A dot with no dot between it and `end` is the last dot.
pub proof fn lemma_last_dot_found(name: Seq<char>, end: int, dot: int)
    requires
        0 <= dot < end,
        name[dot] == '.',
        forall|k: int| dot < k < end ==> name[k] != '.',
    ensures
        last_dot(name, end) == dot,
    decreases end,
{
    if end - 1 > dot {
        lemma_last_dot_found(name, end - 1, dot);
    }
}

/// The output path shows where it came from: its file name has the stem of
/// the input's file name and the extension of the format, and it lies in the
/// directory that was asked for, or beside the input where none was. This
/// holds of every input that has a file name; without one the output name
/// is the bare extension behind a dot, which has no stem to speak of.
pub proof fn lemma_output_path_names(
    input: Seq<ComponentView>,
    output_dir: Option<Seq<ComponentView>>,
    format: OutputFormat,
)
    requires
        file_name(input) matches Some(name) && name.len() > 0,
    ensures
        ({
            let out: Seq<ComponentView> = output_path(input, output_dir, format);
            &&& file_name(out) matches Some(out_name) && stem_of(out_name) == stem_of(
                file_name(input)->0,
            ) && extension_of(out_name) == Some(format.spec_extension())
            &&& directory_of(out) == match output_dir {
                Some(dir) => dir,
                None => directory_of(input),
            }
        }),
{
    let name: Seq<char> = file_name(input)->0;
    let stem: Seq<char> = stem_of(name);
    let ext: Seq<char> = format.spec_extension();
    let out_name: Seq<char> = output_name(input, format);
    let out: Seq<ComponentView> = output_path(input, output_dir, format);
    let dir: Seq<ComponentView> = match output_dir {
        Some(dir) => dir,
        None => directory_of(input),
    };
    reveal_strlit(".");
    reveal_strlit("jpg");
    reveal_strlit("tiff");
    reveal_strlit("png");
    lemma_last_dot_bound(name, name.len() as int);
    assert(stem.len() > 0);
    assert(out_name.len() == stem.len() + 1 + ext.len());
    assert(out_name[stem.len() as int] == '.');
    assert forall|k: int| stem.len() < k < out_name.len() implies out_name[k] != '.' by {
        assert(out_name[k] == ext[k - stem.len() - 1]);
    }
    lemma_last_dot_found(out_name, out_name.len() as int, stem.len() as int);
    assert(out_name.subrange(0, stem.len() as int) =~= stem);
    assert(out_name.subrange(stem.len() as int + 1, out_name.len() as int) =~= ext);
    assert(out.last() == ComponentView::Normal(out_name));
    assert(out.drop_last() =~= dir);
}

} // verus!
