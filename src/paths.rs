//! Launch paths: shell and packaged-app references, paths relative to the
//! application's own directory, and how a stored path is resolved.
use vstd::prelude::*;
use vstd::string::*;
use crate::text::{
    trim, trim_spec, starts_with_ignore_ascii_case, starts_with_lowered, eq_ignore_ascii_case,
    eq_lowered,
};

verus! {

/// Whether a path is a shell or packaged-app reference rather than a file:
/// once trimmed, it starts with `shell:` or `uwp:` in any ASCII case.
pub open spec fn special_path_spec(path: Seq<char>) -> bool {
    starts_with_lowered(trim_spec(path), "shell:"@) || starts_with_lowered(trim_spec(path), "uwp:"@)
}

/// Whether `path` names a shell or packaged-app item rather than a file.
pub fn is_special_path(path: &str) -> (r: bool)
    ensures
        r == special_path_spec(path@),
{
    let t = trim(path);
    starts_with_ignore_ascii_case(t, "shell:") || starts_with_ignore_ascii_case(t, "uwp:")
}

/// One component of a parsed path.
#[derive(Debug)]
pub enum PathComponent {
    /// A drive or share prefix, as written.
    Prefix(String),
    RootDir,
    CurDir,
    ParentDir,
    Normal(String),
}

pub enum ComponentModel {
    Prefix(Seq<char>),
    RootDir,
    CurDir,
    ParentDir,
    Normal(Seq<char>),
}

impl View for PathComponent {
    type V = ComponentModel;

    open spec fn view(&self) -> ComponentModel {
        match self {
            PathComponent::Prefix(s) => ComponentModel::Prefix(s@),
            PathComponent::RootDir => ComponentModel::RootDir,
            PathComponent::CurDir => ComponentModel::CurDir,
            PathComponent::ParentDir => ComponentModel::ParentDir,
            PathComponent::Normal(s) => ComponentModel::Normal(s@),
        }
    }
}

pub open spec fn components_view(v: Seq<PathComponent>) -> Seq<ComponentModel> {
    Seq::new(v.len(), |i: int| v[i]@)
}

pub open spec fn is_ascii_letter(c: char) -> bool {
    ('A' <= c && c <= 'Z') || ('a' <= c && c <= 'z')
}

/// A drive prefix, `C:`, or its verbatim form `\\?\C:`.
pub open spec fn is_drive_prefix(s: Seq<char>) -> bool {
    (s.len() == 2 && is_ascii_letter(s[0]) && s[1] == ':') || (s.len() == 6 && s[0] == '\\'
        && s[1] == '\\' && s[2] == '?' && s[3] == '\\' && is_ascii_letter(s[4]) && s[5] == ':')
}

/// Prefix equality as the platform's path rules have it: drive letters
/// compare without regard to ASCII case, other prefixes as written.
pub open spec fn same_prefix(a: Seq<char>, b: Seq<char>) -> bool {
    if is_drive_prefix(a) && is_drive_prefix(b) {
        eq_lowered(a, b)
    } else {
        a == b
    }
}

/// Component equality: prefixes by `same_prefix`, the rest exactly.
pub open spec fn same_component(a: ComponentModel, b: ComponentModel) -> bool {
    match (a, b) {
        (ComponentModel::Prefix(x), ComponentModel::Prefix(y)) => same_prefix(x, y),
        _ => a == b,
    }
}

fn is_ascii_letter_char(c: char) -> (r: bool)
    ensures
        r == is_ascii_letter(c),
{
    ('A' <= c && c <= 'Z') || ('a' <= c && c <= 'z')
}

/// Whether a prefix text is a drive prefix.
pub fn drive_prefix(s: &str) -> (r: bool)
    ensures
        r == is_drive_prefix(s@),
{
    let n = s.unicode_len();
    if n == 2 {
        is_ascii_letter_char(s.get_char(0)) && s.get_char(1) == ':'
    } else if n == 6 {
        s.get_char(0) == '\\' && s.get_char(1) == '\\' && s.get_char(2) == '?' && s.get_char(3)
            == '\\' && is_ascii_letter_char(s.get_char(4)) && s.get_char(5) == ':'
    } else {
        false
    }
}

impl PathComponent {
    /// Component equality, as `same_component` states it.
    pub fn same_as(&self, other: &PathComponent) -> (r: bool)
        ensures
            r == same_component(self@, other@),
    {
        match self {
            PathComponent::Prefix(a) => match other {
                PathComponent::Prefix(b) => {
                    if drive_prefix(a.as_str()) && drive_prefix(b.as_str()) {
                        eq_ignore_ascii_case(a.as_str(), b.as_str())
                    } else {
                        *a == *b
                    }
                },
                _ => false,
            },
            PathComponent::RootDir => matches!(other, PathComponent::RootDir),
            PathComponent::CurDir => matches!(other, PathComponent::CurDir),
            PathComponent::ParentDir => matches!(other, PathComponent::ParentDir),
            PathComponent::Normal(a) => match other {
                PathComponent::Normal(b) => *a == *b,
                _ => false,
            },
        }
    }

    /// A copy of the component.
    pub fn duplicate(&self) -> (r: PathComponent)
        ensures
            r@ == self@,
    {
        match self {
            PathComponent::Prefix(a) => PathComponent::Prefix(a.clone()),
            PathComponent::RootDir => PathComponent::RootDir,
            PathComponent::CurDir => PathComponent::CurDir,
            PathComponent::ParentDir => PathComponent::ParentDir,
            PathComponent::Normal(a) => PathComponent::Normal(a.clone()),
        }
    }
}

/// The number of leading components that two paths share.
pub open spec fn common_len(p: Seq<ComponentModel>, b: Seq<ComponentModel>) -> nat
    decreases p.len(),
{
    if p.len() == 0 || b.len() == 0 || !same_component(p[0], b[0]) {
        0
    } else {
        1 + common_len(p.drop_first(), b.drop_first())
    }
}

/// The components of `p` relative to `b`: one `..` for each component of `b`
/// past the shared part, then the rest of `p`; `.` where that is nothing.
/// None where either path is empty or both have prefixes that differ.
/// Components are compared by `same_component`.
pub open spec fn relative_spec(p: Seq<ComponentModel>, b: Seq<ComponentModel>) -> Option<
    Seq<ComponentModel>,
> {
    if p.len() == 0 || b.len() == 0 {
        None
    } else if p[0] is Prefix && b[0] is Prefix && !same_component(p[0], b[0]) {
        None
    } else {
        let c = common_len(p, b);
        let rel = Seq::new((b.len() - c) as nat, |i: int| ComponentModel::ParentDir) + p.skip(
            c as int,
        );
        if rel.len() == 0 {
            Some(seq![ComponentModel::CurDir])
        } else {
            Some(rel)
        }
    }
}

/// `path` expressed relative to `base`, component by component.
pub fn make_relative_path_inner(path: &Vec<PathComponent>, base: &Vec<PathComponent>) -> (r: Option<
    Vec<PathComponent>,
>)
    ensures
        match relative_spec(components_view(path@), components_view(base@)) {
            Some(rel) => r matches Some(v) && components_view(v@) == rel,
            None => r is None,
        },
{
    let ghost pv = components_view(path@);
    let ghost bv = components_view(base@);
    if path.len() == 0 || base.len() == 0 {
        return None;
    }
    match (&path[0], &base[0]) {
        (PathComponent::Prefix(_), PathComponent::Prefix(_)) => {
            if !path[0].same_as(&base[0]) {
                return None;
            }
        },
        _ => {},
    }
    let mut idx: usize = 0;
    proof {
        assert(pv.skip(0) =~= pv);
        assert(bv.skip(0) =~= bv);
    }
    while idx < path.len() && idx < base.len() && path[idx].same_as(&base[idx])
        invariant
            pv == components_view(path@),
            bv == components_view(base@),
            idx <= path@.len(),
            idx <= base@.len(),
            common_len(pv, bv) == idx + common_len(pv.skip(idx as int), bv.skip(idx as int)),
        decreases path@.len() - idx,
    {
        proof {
            assert(pv.skip(idx as int).drop_first() =~= pv.skip(idx + 1));
            assert(bv.skip(idx as int).drop_first() =~= bv.skip(idx + 1));
        }
        idx = idx + 1;
    }
    proof {
        assert(common_len(pv.skip(idx as int), bv.skip(idx as int)) == 0);
    }
    let mut rel: Vec<PathComponent> = Vec::new();
    let mut k: usize = idx;
    while k < base.len()
        invariant
            idx <= k <= base@.len(),
            components_view(rel@) =~= Seq::new((k - idx) as nat, |i: int| ComponentModel::ParentDir),
        decreases base@.len() - k,
    {
        let ghost before = rel@;
        rel.push(PathComponent::ParentDir);
        proof {
            assert(components_view(rel@) =~= components_view(before).push(ComponentModel::ParentDir));
        }
        k = k + 1;
    }
    let ghost ups = components_view(rel@);
    let mut m: usize = idx;
    while m < path.len()
        invariant
            pv == components_view(path@),
            idx <= m <= path@.len(),
            components_view(rel@) =~= ups + pv.subrange(idx as int, m as int),
        decreases path@.len() - m,
    {
        let ghost before = rel@;
        rel.push(path[m].duplicate());
        proof {
            assert(components_view(rel@) =~= components_view(before).push(pv[m as int]));
            assert(pv.subrange(idx as int, m + 1) =~= pv.subrange(idx as int, m as int).push(
                pv[m as int],
            ));
        }
        m = m + 1;
    }
    proof {
        assert(pv.subrange(idx as int, path@.len() as int) =~= pv.skip(idx as int));
    }
    if rel.len() == 0 {
        rel.push(PathComponent::CurDir);
        proof {
            assert(components_view(rel@) =~= seq![ComponentModel::CurDir]);
        }
    }
    Some(rel)
}

/// How a stored launch path becomes the path that is started.
#[derive(Debug)]
pub enum LaunchPath {
    /// Used exactly as stored.
    AsGiven,
    /// Joined onto the application's own directory.
    UnderBase,
}

/// Blank paths, shell references and absolute paths are used as stored; a
/// relative path is taken under the application's directory where that is
/// known.
pub fn resolve_launch_path(path: &str, is_absolute: bool, has_base: bool) -> (r: LaunchPath)
    ensures
        (r is UnderBase) == (trim_spec(path@).len() != 0 && !special_path_spec(path@)
            && !is_absolute && has_base),
{
    if trim(path).unicode_len() == 0 || is_special_path(path) {
        return LaunchPath::AsGiven;
    }
    if is_absolute {
        return LaunchPath::AsGiven;
    }
    if has_base {
        LaunchPath::UnderBase
    } else {
        LaunchPath::AsGiven
    }
}

/// What checking one stored path takes.
#[derive(Debug)]
pub enum PathCheck {
    /// Blank: not valid.
    Blank,
    /// A shell reference: valid without looking at the disk.
    Special,
    /// Valid exactly when the trimmed path, resolved, exists.
    Exists(String),
}

/// Classifies a stored path for validation.
pub fn check_path(path: &str) -> (r: PathCheck)
    ensures
        trim_spec(path@).len() == 0 ==> r is Blank,
        trim_spec(path@).len() != 0 && special_path_spec(trim_spec(path@)) ==> r is Special,
        trim_spec(path@).len() != 0 && !special_path_spec(trim_spec(path@)) ==> (r matches PathCheck::Exists(
            t,
        ) && t@ == trim_spec(path@)),
{
    let t = trim(path);
    if t.unicode_len() == 0 {
        PathCheck::Blank
    } else if is_special_path(t) {
        PathCheck::Special
    } else {
        PathCheck::Exists(String::from_str(t))
    }
}

/// Why a shortcut's folder cannot be opened.
#[derive(Debug)]
pub enum FolderError {
    /// The path is blank.
    Empty,
    /// The path is a shell reference, which has no folder.
    NoFolder,
    /// Neither the path nor its parent can be found.
    ParentNotFound,
}

/// `s` without one pair of enclosing `q` characters, where it has them.
pub open spec fn unquote_spec(s: Seq<char>, q: char) -> Seq<char> {
    if s.len() >= 2 && s[0] == q && s.last() == q {
        s.subrange(1, s.len() - 1)
    } else {
        s
    }
}

fn unquote(s: &str, q: char) -> (r: &str)
    ensures
        r@ == unquote_spec(s@, q),
{
    let n = s.unicode_len();
    if n >= 2 && s.get_char(0) == q && s.get_char(n - 1) == q {
        s.substring_char(1, n - 1)
    } else {
        s
    }
}

/// A folder request's path: trimmed, then without enclosing double quotes,
/// then without enclosing single quotes.
pub open spec fn folder_path_spec(path: Seq<char>) -> Seq<char> {
    unquote_spec(unquote_spec(trim_spec(path), '"'), '\'')
}

/// The path whose folder is to be opened, or why there is none.
pub fn folder_path(path: &str) -> (r: Result<String, FolderError>)
    ensures
        trim_spec(folder_path_spec(path@)).len() == 0 ==> r matches Err(FolderError::Empty),
        trim_spec(folder_path_spec(path@)).len() != 0 && special_path_spec(folder_path_spec(path@))
            ==> r matches Err(FolderError::NoFolder),
        trim_spec(folder_path_spec(path@)).len() != 0 && !special_path_spec(folder_path_spec(path@))
            ==> (r matches Ok(p) && p@ == folder_path_spec(path@)),
{
    let raw = unquote(unquote(trim(path), '"'), '\'');
    if trim(raw).unicode_len() == 0 {
        return Err(FolderError::Empty);
    }
    if is_special_path(raw) {
        return Err(FolderError::NoFolder);
    }
    Ok(String::from_str(raw))
}

/// What opening a shortcut's folder shows.
#[derive(Debug)]
pub enum FolderAction {
    /// The path is a directory: open it.
    OpenDir,
    /// The path is a file: show it selected in its folder.
    SelectFile,
    /// The path is missing: open its parent.
    OpenParent,
}

/// Decides what to open from what the disk shows of the resolved path.
pub fn folder_action(exists: bool, is_dir: bool, has_parent: bool) -> (r: Result<
    FolderAction,
    FolderError,
>)
    ensures
        exists && is_dir ==> r matches Ok(FolderAction::OpenDir),
        exists && !is_dir ==> r matches Ok(FolderAction::SelectFile),
        !exists && has_parent ==> r matches Ok(FolderAction::OpenParent),
        !exists && !has_parent ==> r matches Err(FolderError::ParentNotFound),
{
    if exists && is_dir {
        Ok(FolderAction::OpenDir)
    } else if exists {
        Ok(FolderAction::SelectFile)
    } else if has_parent {
        Ok(FolderAction::OpenParent)
    } else {
        Err(FolderError::ParentNotFound)
    }
}

} // verus!
