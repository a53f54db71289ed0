//! Pathname operations for OVSM
//!
//! This module implements Common Lisp's pathname functions including:
//! - Pathname creation (PATHNAME, MAKE-PATHNAME, PARSE-NAMESTRING)
//! - Component extraction (PATHNAME-DIRECTORY, PATHNAME-NAME, PATHNAME-TYPE, etc.)
//! - Path utilities (MERGE-PATHNAMES, NAMESTRING, TRUENAME, etc.)
//!
//! Implementation notes:
//! - Uses Rust's std::path for cross-platform path handling
//! - Pathnames are represented as strings in OVSM
//! - Components are extracted using Path methods
//! - Supports both absolute and relative paths
use vstd::prelude::*;

#[allow(unused_imports)]
use crate::access::{copy_range, copy_slice, copy_values, values_equal};
#[allow(unused_imports)]
use crate::error::{empty_collection, exec_error, invalid_args, ErrV, Error};
#[allow(unused_imports)]
use crate::text::{alphabetic, alphanumeric, char_from_u32, char_is_alphabetic, char_is_alphanumeric, char_is_lowercase, char_is_uppercase, char_is_whitespace, char_string, char_to_lowercase, char_to_uppercase, chars_of, chars_skip, concat, i64_to_string, int_decimal, lower_case, lower_chars, lowercase, owned, scalar_value, seq_less, str_equal, str_less, string_from_chars, to_lower, to_upper, upper_case, upper_chars, uppercase, whitespace};
#[allow(unused_imports)]
use crate::tools::{bad_args, name_insert, outcome, ref_outcome, string_views, yields, Tool, ToolRegistry};
#[allow(unused_imports)]
use crate::value::{and_then, elems, entry_models, int_of, models, obj_insert, obj_keys, obj_lookup, obj_merge, obj_of, obj_values, str_of, truthy, type_error, ObjectMap, Val, Value};

verus! {

broadcast use crate::seq_models::group_value_models;

/// The names after registering this module's tools, in order.
pub open spec fn registered_names(ns: Seq<Seq<char>>) -> Seq<Seq<char>> {
    let ns = name_insert(ns, "PATHNAME"@);
    let ns = name_insert(ns, "MAKE-PATHNAME"@);
    let ns = name_insert(ns, "PARSE-NAMESTRING"@);
    let ns = name_insert(ns, "PATHNAME-DIRECTORY"@);
    let ns = name_insert(ns, "PATHNAME-NAME"@);
    let ns = name_insert(ns, "PATHNAME-TYPE"@);
    let ns = name_insert(ns, "PATHNAME-HOST"@);
    let ns = name_insert(ns, "PATHNAME-VERSION"@);
    let ns = name_insert(ns, "MERGE-PATHNAMES"@);
    let ns = name_insert(ns, "NAMESTRING"@);
    let ns = name_insert(ns, "DIRECTORY-NAMESTRING"@);
    let ns = name_insert(ns, "FILE-NAMESTRING"@);
    let ns = name_insert(ns, "ENOUGH-NAMESTRING"@);
    let ns = name_insert(ns, "PATHNAME-DEVICE"@);
    let ns = name_insert(ns, "TRUENAME"@);
    ns
}

/// Register the tools of this module: those the library holds, then those
/// the application supplies, each under its name: `pathname_device_tool` under PATHNAME-DEVICE, `truename_tool` under TRUENAME.
pub fn register<TPathnameDevice: Tool + 'static, TTruename: Tool + 'static>(registry: &mut ToolRegistry, pathname_device_tool: TPathnameDevice, truename_tool: TTruename)
    requires
        pathname_device_tool.names_itself() ==> pathname_device_tool.spec_name() == "PATHNAME-DEVICE"@,
        truename_tool.names_itself() ==> truename_tool.spec_name() == "TRUENAME"@,
    ensures
        final(registry).names() == registered_names(old(registry).names()),
{
    registry.register(PathnameTool);
    registry.register(MakePathnameTool);
    registry.register(ParseNamestringTool);
    registry.register(PathnameDirectoryTool);
    registry.register(PathnameNameTool);
    registry.register(PathnameTypeTool);
    registry.register(PathnameHostTool);
    registry.register(PathnameVersionTool);
    registry.register(MergePathnamesTool);
    registry.register(NamestringTool);
    registry.register(DirectoryNamestringTool);
    registry.register(FileNamestringTool);
    registry.register(EnoughNamestringTool);
    registry.place(owned("PATHNAME-DEVICE"), pathname_device_tool);
    registry.place(owned("TRUENAME"), truename_tool);
}

/// PATHNAME-HOST - Get host component (not applicable in OVSM)
pub struct PathnameHostTool;

impl Tool for PathnameHostTool {
    open spec fn names_itself(&self) -> bool {
        true
    }

    open spec fn spec_name(&self) -> Seq<char> {
        "PATHNAME-HOST"@
    }

    open spec fn admits(&self, args: Seq<Val>) -> bool {
        true
    }

    fn name(&self) -> &str {
        "PATHNAME-HOST"
    }

    fn description(&self) -> (r: &str)
        ensures
            r@ == "Get host component (always null in OVSM)"@,
    {
        "Get host component (always null in OVSM)"
    }

    fn execute(&self, args: &[Value]) -> (r: Result<Value, Error>)
        ensures
            outcome(r) == (yields(Val::Null)),
    {
        Ok(Value::Null)
    }
}

/// PATHNAME-VERSION - Get version component (not applicable in OVSM)
pub struct PathnameVersionTool;

impl Tool for PathnameVersionTool {
    open spec fn names_itself(&self) -> bool {
        true
    }

    open spec fn spec_name(&self) -> Seq<char> {
        "PATHNAME-VERSION"@
    }

    open spec fn admits(&self, args: Seq<Val>) -> bool {
        true
    }

    fn name(&self) -> &str {
        "PATHNAME-VERSION"
    }

    fn description(&self) -> (r: &str)
        ensures
            r@ == "Get version component (always null in OVSM)"@,
    {
        "Get version component (always null in OVSM)"
    }

    fn execute(&self, args: &[Value]) -> (r: Result<Value, Error>)
        ensures
            outcome(r) == (yields(Val::Null)),
    {
        Ok(Value::Null)
    }
}

use crate::tools::stdlib::strings::{first_string, string_map, two_strings};

/// `Path::new(s).display()` of std, as a string. A path made from a string
/// holds valid Unicode, so its display gives the same characters back.
#[verifier::external_body]
fn path_display(s: &str) -> (r: String)
    ensures
        r@ == s@,
{
    std::path::Path::new(s).display().to_string()
}

/// `p` occurs in `s` as a contiguous part.
pub open spec fn is_part(p: Seq<char>, s: Seq<char>) -> bool {
    exists|i: int| 0 <= i && i + p.len() <= s.len() && #[trigger] s.subrange(i, i + p.len()) == p
}

/// `p` begins `s`.
pub open spec fn is_prefix(p: Seq<char>, s: Seq<char>) -> bool {
    p.len() <= s.len() && s.subrange(0, p.len() as int) == p
}

/// `p` ends `s`.
pub open spec fn is_suffix(p: Seq<char>, s: Seq<char>) -> bool {
    p.len() <= s.len() && s.subrange(s.len() - p.len(), s.len() as int) == p
}

/// Holds none of the characters that some platform reads as path syntax:
/// `/`, `\` and `:`.
pub open spec fn plain_segment(s: Seq<char>) -> bool {
    forall|i: int| 0 <= i < s.len() ==> s[i] != '/' && s[i] != '\\' && s[i] != ':'
}

/// A single ordinary path component on every platform: plain, not empty, and
/// neither `.` nor `..`.
pub open spec fn plain_name(s: Seq<char>) -> bool {
    plain_segment(s) && s.len() > 0 && s != "."@ && s != ".."@
}

/// The index of the last `.` in `s`, or -1.
pub open spec fn last_dot(s: Seq<char>) -> int
    decreases s.len(),
{
    if s.len() == 0 {
        -1
    } else if s.last() == '.' {
        s.len() - 1
    } else {
        last_dot(s.drop_last())
    }
}

/// The stem of a file name: the part before its last `.`, or the whole name
/// when it has no `.` after its first character.
pub open spec fn name_stem(s: Seq<char>) -> Seq<char> {
    if last_dot(s) <= 0 {
        s
    } else {
        s.subrange(0, last_dot(s))
    }
}

/// The extension of a file name: the part after its last `.`, when that `.`
/// is not its first character.
pub open spec fn name_extension(s: Seq<char>) -> Option<Seq<char>> {
    if last_dot(s) <= 0 {
        None
    } else {
        Some(s.subrange(last_dot(s) + 1, s.len() as int))
    }
}

/// What holds of std's parent of the path `s`, on every platform: a shorter
/// beginning of the path; none for the empty path or the root `/`; the empty
/// path for a single plain name.
pub open spec fn parent_fits(s: Seq<char>, o: Option<Seq<char>>) -> bool {
    &&& (o matches Some(d) ==> d.len() < s.len() && is_prefix(d, s))
    &&& (s.len() == 0 || s == "/"@ ==> o is None)
    &&& (plain_name(s) ==> o == Some(Seq::<char>::empty()))
}

/// What holds of std's file name of the path `s`, on every platform: a
/// non-empty part of the path without `/`; the path itself for a single plain name.
pub open spec fn file_name_fits(s: Seq<char>, o: Option<Seq<char>>) -> bool {
    &&& (o matches Some(n) ==> n.len() > 0 && is_part(n, s) && !n.contains('/'))
    &&& (plain_name(s) ==> o == Some(s))
}

/// What holds of std's file stem of the path `s`, on every platform: a
/// non-empty part of the path without `/`; for a single plain name, its stem.
pub open spec fn stem_fits(s: Seq<char>, o: Option<Seq<char>>) -> bool {
    &&& (o matches Some(t) ==> t.len() > 0 && is_part(t, s) && !t.contains('/'))
    &&& (plain_name(s) ==> o == Some(name_stem(s)))
}

/// What holds of std's extension of the path `s`, on every platform: a part
/// of the path that follows a `.` and holds neither `.` nor `/`; for a single
/// plain name, its extension.
pub open spec fn extension_fits(s: Seq<char>, o: Option<Seq<char>>) -> bool {
    &&& (o matches Some(e) ==> is_part(seq!['.'] + e, s) && !e.contains('.') && !e.contains('/'))
    &&& (plain_name(s) ==> o == name_extension(s))
}

/// What holds of std's answer whether the path `s` is relative: a plain
/// path is relative on every platform.
pub open spec fn relative_fits(s: Seq<char>, b: bool) -> bool {
    plain_segment(s) ==> b
}

/// What holds of pushing `part` onto the path `base` on every platform: onto
/// the empty path it gives `part` itself; `part` ends the result unless `base`
/// begins with `\` (a Windows verbatim path, whose pushes are normalised); and
/// when both are plain, `base` begins the result.
pub open spec fn push_fits(base: Seq<char>, part: Seq<char>, r: Seq<char>) -> bool {
    &&& (base.len() == 0 ==> r == part)
    &&& (base.len() == 0 || base[0] != '\\' ==> is_suffix(part, r))
    &&& (plain_segment(base) && plain_segment(part) ==> is_prefix(base, r))
}

/// What holds of std's path `s` with the prefix `base` stripped: a part of `s`.
pub open spec fn strip_fits(s: Seq<char>, o: Option<Seq<char>>) -> bool {
    o matches Some(t) ==> is_part(t, s)
}

/// DIRECTORY-NAMESTRING's answer `x` for the path `p`: the directory string
/// of some parent that std may answer.
pub open spec fn directory_fits(p: Seq<char>, x: Seq<char>) -> bool {
    exists|o: Option<Seq<char>>| #[trigger] parent_fits(p, o) && x == directory_string(o)
}

/// ENOUGH-NAMESTRING's answer `x` for the path `p`: what std may answer with
/// the base stripped, or `p` itself when std answers nothing.
pub open spec fn enough_fits(p: Seq<char>, x: Seq<char>) -> bool {
    exists|o: Option<Seq<char>>| #[trigger] strip_fits(p, o) && x == or_path(o, p)
}

/// The stripped path, or `p` when there is none.
pub open spec fn or_path(o: Option<Seq<char>>, p: Seq<char>) -> Seq<char> {
    match o {
        Some(t) => t,
        None => p,
    }
}

/// MERGE-PATHNAMES's answer `x` for the path `p` and the default `d`: `p`
/// pushed onto `d`, or `p` itself when it is not plain (std may find it
/// absolute).
pub open spec fn merge_fits(p: Seq<char>, d: Seq<char>, x: Seq<char>) -> bool {
    ||| relative_fits(p, false) && x == p
    ||| exists|j: Seq<char>| #[trigger] push_fits(d, p, j) && x == j
}

/// An optional string as its characters.
pub open spec fn opt_seq(o: Option<String>) -> Option<Seq<char>> {
    match o {
        Some(x) => Some(x@),
        None => None,
    }
}

/// `Path::parent` of std, displayed.
#[verifier::external_body]
fn path_parent(s: &str) -> (r: Option<String>)
    ensures
        parent_fits(s@, opt_seq(r)),
{
    std::path::Path::new(s).parent().map(|p| p.display().to_string())
}

/// `Path::file_stem` of std; the path holds valid Unicode, so the lossy
/// conversion changes nothing.
#[verifier::external_body]
fn path_file_stem(s: &str) -> (r: Option<String>)
    ensures
        stem_fits(s@, opt_seq(r)),
{
    std::path::Path::new(s).file_stem().map(|n| n.to_string_lossy().to_string())
}

/// `Path::extension` of std, converted as the stem is.
#[verifier::external_body]
fn path_extension(s: &str) -> (r: Option<String>)
    ensures
        extension_fits(s@, opt_seq(r)),
{
    std::path::Path::new(s).extension().map(|n| n.to_string_lossy().to_string())
}

/// `Path::file_name` of std, converted as the stem is.
#[verifier::external_body]
fn path_file_name(s: &str) -> (r: Option<String>)
    ensures
        file_name_fits(s@, opt_seq(r)),
{
    std::path::Path::new(s).file_name().map(|n| n.to_string_lossy().to_string())
}

/// `Path::is_relative` of std.
#[verifier::external_body]
fn path_is_relative(s: &str) -> (b: bool)
    ensures
        relative_fits(s@, b),
{
    std::path::Path::new(s).is_relative()
}

/// `PathBuf::push` of std on the path `base`, displayed.
#[verifier::external_body]
fn path_push(base: &str, part: &str) -> (r: String)
    ensures
        push_fits(base@, part@, r@),
{
    let mut p = std::path::PathBuf::from(base);
    p.push(part);
    p.display().to_string()
}

/// `Path::strip_prefix` of std, displayed.
#[verifier::external_body]
fn path_strip_prefix(s: &str, base: &str) -> (r: Option<String>)
    ensures
        strip_fits(s@, opt_seq(r)),
{
    std::path::Path::new(s).strip_prefix(base).ok().map(|p| p.display().to_string())
}

/// A string value as an optional component: null is none.
pub open spec fn component_of(v: Val) -> Option<Seq<char>> {
    match v {
        Val::Str(x) => Some(x),
        _ => None,
    }
}

/// The result of a pathname tool that answers a component of its path `p`
/// (a string, or null when there is none), given its check of the arguments
/// and what holds of std's answer.
pub open spec fn component_answer(
    check: Result<Seq<char>, ErrV>,
    r: Result<Value, Error>,
    fits: spec_fn(Seq<char>, Option<Seq<char>>) -> bool,
) -> bool {
    match check {
        Err(e) => outcome(r) == Err::<Val, ErrV>(e),
        Ok(p) => r matches Ok(v) && (v.model() is Str || v.model() is Null) && fits(p, component_of(v.model())),
    }
}

/// The string a path tool answers for a component: the component, or the
/// empty string when there is none.
pub open spec fn or_empty(o: Option<Seq<char>>) -> Seq<char> {
    match o {
        Some(x) => x,
        None => Seq::empty(),
    }
}

/// DIRECTORY-NAMESTRING's answer for std's parent.
pub open spec fn directory_string(parent: Option<Seq<char>>) -> Seq<char> {
    match parent {
        Some(d) => if d.len() > 0 && d.last() != '/' && d.last() != '\\' { d.push('/') } else { d },
        None => Seq::<char>::empty(),
    }
}

/// A component answered by std, as a string value or null.
pub fn component_value(c: Option<String>) -> (r: Value)
    ensures
        r.model() == (match c {
            Some(s) => Val::Str(s@),
            None => Val::Null,
        }),
{
    match c {
        Some(s) => Value::String(s),
        None => Value::Null,
    }
}

/// DIRECTORY-NAMESTRING for the parent that std answers: the parent with a
/// trailing `/` added unless it is empty or already ends with a separator,
/// or the empty string when there is no parent.
pub fn directory_namestring_of(parent: Option<String>) -> (r: String)
    ensures
        r@ == directory_string(opt_seq(parent)),
{
    match parent {
        Some(d) => {
            let n = d.as_str().unicode_len();
            if n > 0 {
                let last = d.as_str().get_char(n - 1);
                if last != '/' && last != '\\' {
                    let r = concat(d.as_str(), "/");
                    assert(d@ + "/"@ =~= d@.push('/')) by {
                        reveal_strlit("/");
                    }
                    return r;
                }
            }
            d
        },
        None => String::new(),
    }
}

/// The pathname that MERGE-PATHNAMES answers, from std's answers for the
/// path: whether it is relative and the default joined with it.
pub fn merged_pathname(path: &str, has_default: bool, relative: bool, joined: String) -> (r: String)
    ensures
        r@ == (if has_default && relative { joined@ } else { path@ }),
{
    if has_default && relative {
        joined
    } else {
        path_display(path)
    }
}

/// PATHNAME - Create pathname object (returns path string)
pub struct PathnameTool;

impl Tool for PathnameTool {
    open spec fn names_itself(&self) -> bool {
        true
    }

    open spec fn spec_name(&self) -> Seq<char> {
        "PATHNAME"@
    }

    fn name(&self) -> &str {
        "PATHNAME"
    }

    fn description(&self) -> (r: &str)
        ensures
            r@ == "Create pathname from string"@,
    {
        "Create pathname from string"
    }

    fn execute(&self, args: &[Value]) -> (r: Result<Value, Error>)
        ensures
            outcome(r) == string_map(first_string("PATHNAME"@, "Expected pathname string"@, models(args@)), |s: Seq<char>| Val::Str(s)),
    {
        if args.len() == 0 {
            return Err(invalid_args("PATHNAME", "Expected pathname string"));
        }
        let path_str = args[0].as_string()?;
        Ok(Value::String(path_display(path_str)))
    }
}

/// PARSE-NAMESTRING - Parse string to pathname
pub struct ParseNamestringTool;

impl Tool for ParseNamestringTool {
    open spec fn names_itself(&self) -> bool {
        true
    }

    open spec fn spec_name(&self) -> Seq<char> {
        "PARSE-NAMESTRING"@
    }

    fn name(&self) -> &str {
        "PARSE-NAMESTRING"
    }

    fn description(&self) -> (r: &str)
        ensures
            r@ == "Parse string into pathname"@,
    {
        "Parse string into pathname"
    }

    fn execute(&self, args: &[Value]) -> (r: Result<Value, Error>)
        ensures
            outcome(r) == string_map(first_string("PARSE-NAMESTRING"@, "Expected string to parse"@, models(args@)), |s: Seq<char>| Val::Str(s)),
    {
        if args.len() == 0 {
            return Err(invalid_args("PARSE-NAMESTRING", "Expected string to parse"));
        }
        let path_str = args[0].as_string()?;
        Ok(Value::String(path_display(path_str)))
    }
}

/// NAMESTRING - Convert pathname to string
pub struct NamestringTool;

impl Tool for NamestringTool {
    open spec fn names_itself(&self) -> bool {
        true
    }

    open spec fn spec_name(&self) -> Seq<char> {
        "NAMESTRING"@
    }

    fn name(&self) -> &str {
        "NAMESTRING"
    }

    fn description(&self) -> (r: &str)
        ensures
            r@ == "Convert pathname to string representation"@,
    {
        "Convert pathname to string representation"
    }

    fn execute(&self, args: &[Value]) -> (r: Result<Value, Error>)
        ensures
            outcome(r) == string_map(first_string("NAMESTRING"@, "Expected pathname"@, models(args@)), |s: Seq<char>| Val::Str(s)),
    {
        if args.len() == 0 {
            return Err(invalid_args("NAMESTRING", "Expected pathname"));
        }
        let path_str = args[0].as_string()?;
        Ok(Value::String(path_display(path_str)))
    }
}

/// The argument errors of MAKE-PATHNAME: a directory, name or extension that is not a string.
pub open spec fn make_pathname_check(a: Seq<Val>) -> Result<Seq<char>, ErrV> {
    let d: Result<Seq<char>, ErrV> = if a.len() > 0 { str_of(a[0]) } else { Ok(Seq::empty()) };
    match d {
        Err(e) => Err(e),
        Ok(_) => {
            let n: Result<Seq<char>, ErrV> = if a.len() > 1 { str_of(a[1]) } else { Ok(Seq::empty()) };
            match n {
                Err(e) => Err(e),
                Ok(_) => if a.len() > 2 { str_of(a[2]) } else { Ok(Seq::empty()) },
            }
        },
    }
}

/// What holds of MAKE-PATHNAME's answer `x`: empty without arguments; the
/// directory alone; else the name, or the name, a `.` and the type, pushed
/// onto the directory.
pub open spec fn made_pathname_fits(a: Seq<Val>, x: Seq<char>) -> bool {
    if a.len() == 0 {
        x.len() == 0
    } else if a.len() == 1 {
        x == a[0]->Str_0
    } else if a.len() == 2 {
        push_fits(a[0]->Str_0, a[1]->Str_0, x)
    } else {
        push_fits(a[0]->Str_0, a[1]->Str_0 + "."@ + a[2]->Str_0, x)
    }
}

/// MAKE-PATHNAME - Construct pathname from components
pub struct MakePathnameTool;

impl Tool for MakePathnameTool {
    open spec fn names_itself(&self) -> bool {
        true
    }

    open spec fn spec_name(&self) -> Seq<char> {
        "MAKE-PATHNAME"@
    }

    fn name(&self) -> &str {
        "MAKE-PATHNAME"
    }

    fn description(&self) -> (r: &str)
        ensures
            r@ == "Construct pathname from directory, name, and type components"@,
    {
        "Construct pathname from directory, name, and type components"
    }

    fn execute(&self, args: &[Value]) -> (r: Result<Value, Error>)
        ensures
            match make_pathname_check(models(args@)) {
                Err(e) => outcome(r) == Err::<Val, ErrV>(e),
                Ok(_) => r matches Ok(v) && v.model() matches Val::Str(x) && made_pathname_fits(models(args@), x),
            },
    {
        let mut path = String::new();
        if args.len() > 0 {
            let dir = args[0].as_string()?;
            path = path_push(path.as_str(), dir);
        }
        if args.len() > 1 {
            let name = args[1].as_string()?;
            if args.len() > 2 {
                let ext = args[2].as_string()?;
                let dotted = concat(name, ".");
                let filename = concat(dotted.as_str(), ext);
                path = path_push(path.as_str(), filename.as_str());
            } else {
                path = path_push(path.as_str(), name);
            }
        }
        Ok(Value::String(path))
    }
}

/// PATHNAME-DIRECTORY - Get directory component
pub struct PathnameDirectoryTool;

impl Tool for PathnameDirectoryTool {
    open spec fn names_itself(&self) -> bool {
        true
    }

    open spec fn spec_name(&self) -> Seq<char> {
        "PATHNAME-DIRECTORY"@
    }

    fn name(&self) -> &str {
        "PATHNAME-DIRECTORY"
    }

    fn description(&self) -> (r: &str)
        ensures
            r@ == "Get directory component of pathname"@,
    {
        "Get directory component of pathname"
    }

    fn execute(&self, args: &[Value]) -> (r: Result<Value, Error>)
        ensures
            component_answer(
                first_string("PATHNAME-DIRECTORY"@, "Expected pathname"@, models(args@)),
                r,
                (|p: Seq<char>, o: Option<Seq<char>>| parent_fits(p, o)),
            ),
    {
        if args.len() == 0 {
            return Err(invalid_args("PATHNAME-DIRECTORY", "Expected pathname"));
        }
        let path_str = args[0].as_string()?;
        Ok(component_value(path_parent(path_str)))
    }
}

/// PATHNAME-NAME - Get filename component (without extension)
pub struct PathnameNameTool;

impl Tool for PathnameNameTool {
    open spec fn names_itself(&self) -> bool {
        true
    }

    open spec fn spec_name(&self) -> Seq<char> {
        "PATHNAME-NAME"@
    }

    fn name(&self) -> &str {
        "PATHNAME-NAME"
    }

    fn description(&self) -> (r: &str)
        ensures
            r@ == "Get filename component without extension"@,
    {
        "Get filename component without extension"
    }

    fn execute(&self, args: &[Value]) -> (r: Result<Value, Error>)
        ensures
            component_answer(
                first_string("PATHNAME-NAME"@, "Expected pathname"@, models(args@)),
                r,
                (|p: Seq<char>, o: Option<Seq<char>>| stem_fits(p, o)),
            ),
    {
        if args.len() == 0 {
            return Err(invalid_args("PATHNAME-NAME", "Expected pathname"));
        }
        let path_str = args[0].as_string()?;
        Ok(component_value(path_file_stem(path_str)))
    }
}

/// PATHNAME-TYPE - Get file extension
pub struct PathnameTypeTool;

impl Tool for PathnameTypeTool {
    open spec fn names_itself(&self) -> bool {
        true
    }

    open spec fn spec_name(&self) -> Seq<char> {
        "PATHNAME-TYPE"@
    }

    fn name(&self) -> &str {
        "PATHNAME-TYPE"
    }

    fn description(&self) -> (r: &str)
        ensures
            r@ == "Get file extension"@,
    {
        "Get file extension"
    }

    fn execute(&self, args: &[Value]) -> (r: Result<Value, Error>)
        ensures
            component_answer(
                first_string("PATHNAME-TYPE"@, "Expected pathname"@, models(args@)),
                r,
                (|p: Seq<char>, o: Option<Seq<char>>| extension_fits(p, o)),
            ),
    {
        if args.len() == 0 {
            return Err(invalid_args("PATHNAME-TYPE", "Expected pathname"));
        }
        let path_str = args[0].as_string()?;
        Ok(component_value(path_extension(path_str)))
    }
}

/// The argument errors of MERGE-PATHNAMES.
pub open spec fn merge_pathnames_check(a: Seq<Val>) -> Result<Seq<char>, ErrV> {
    if a.len() == 0 {
        Err(ErrV::InvalidArguments { tool: "MERGE-PATHNAMES"@, reason: "Expected at least one pathname"@ })
    } else {
        match str_of(a[0]) {
            Err(e) => Err(e),
            Ok(p) => if a.len() > 1 {
                match str_of(a[1]) {
                    Err(e) => Err(e),
                    Ok(_) => Ok(p),
                }
            } else {
                Ok(p)
            },
        }
    }
}

/// MERGE-PATHNAMES - Merge pathname with defaults
pub struct MergePathnamesTool;

impl Tool for MergePathnamesTool {
    open spec fn names_itself(&self) -> bool {
        true
    }

    open spec fn spec_name(&self) -> Seq<char> {
        "MERGE-PATHNAMES"@
    }

    fn name(&self) -> &str {
        "MERGE-PATHNAMES"
    }

    fn description(&self) -> (r: &str)
        ensures
            r@ == "Merge pathname with default pathname"@,
    {
        "Merge pathname with default pathname"
    }

    fn execute(&self, args: &[Value]) -> (r: Result<Value, Error>)
        ensures
            match merge_pathnames_check(models(args@)) {
                Err(e) => outcome(r) == Err::<Val, ErrV>(e),
                Ok(p) => r matches Ok(v) && v.model() matches Val::Str(x) && (args@.len() > 1 ==> merge_fits(
                    p,
                    models(args@)[1]->Str_0,
                    x,
                )),
            },
            (args@.len() == 1 && models(args@)[0] is Str) ==> outcome(r) == Ok::<Val, ErrV>(models(args@)[0]),
    {
        if args.len() == 0 {
            return Err(invalid_args("MERGE-PATHNAMES", "Expected at least one pathname"));
        }
        let path_str = args[0].as_string()?;
        if args.len() > 1 {
            let default_str = args[1].as_string()?;
            let relative = path_is_relative(path_str);
            let joined = if relative { path_push(default_str, path_str) } else { String::new() };
            let ghost j = joined@;
            let m = merged_pathname(path_str, true, relative, joined);
            assert(models(args@)[0] == args@[0].model() && models(args@)[1] == args@[1].model());
            assert(relative_fits(models(args@)[0]->Str_0, relative) && (relative ==> push_fits(
                models(args@)[1]->Str_0,
                models(args@)[0]->Str_0,
                j,
            )));
            assert(m@ == (if relative {
                j
            } else {
                models(args@)[0]->Str_0
            }));
            assert(merge_fits(models(args@)[0]->Str_0, models(args@)[1]->Str_0, m@));
            Ok(Value::String(m))
        } else {
            Ok(Value::String(path_display(path_str)))
        }
    }
}

/// DIRECTORY-NAMESTRING - Get directory as string
pub struct DirectoryNamestringTool;

impl Tool for DirectoryNamestringTool {
    open spec fn names_itself(&self) -> bool {
        true
    }

    open spec fn spec_name(&self) -> Seq<char> {
        "DIRECTORY-NAMESTRING"@
    }

    fn name(&self) -> &str {
        "DIRECTORY-NAMESTRING"
    }

    fn description(&self) -> (r: &str)
        ensures
            r@ == "Get directory component as string"@,
    {
        "Get directory component as string"
    }

    fn execute(&self, args: &[Value]) -> (r: Result<Value, Error>)
        ensures
            match first_string("DIRECTORY-NAMESTRING"@, "Expected pathname"@, models(args@)) {
                Err(e) => outcome(r) == Err::<Val, ErrV>(e),
                Ok(p) => r matches Ok(v) && v.model() matches Val::Str(x) && directory_fits(p, x),
            },
    {
        if args.len() == 0 {
            return Err(invalid_args("DIRECTORY-NAMESTRING", "Expected pathname"));
        }
        let path_str = args[0].as_string()?;
        let parent = path_parent(path_str);
        let ghost o = opt_seq(parent);
        let d = directory_namestring_of(parent);
        assert(models(args@)[0] == args@[0].model());
        assert(parent_fits(models(args@)[0]->Str_0, o) && d@ == directory_string(o));
        assert(directory_fits(models(args@)[0]->Str_0, d@));
        Ok(Value::String(d))
    }
}

/// FILE-NAMESTRING - Get filename as string
pub struct FileNamestringTool;

impl Tool for FileNamestringTool {
    open spec fn names_itself(&self) -> bool {
        true
    }

    open spec fn spec_name(&self) -> Seq<char> {
        "FILE-NAMESTRING"@
    }

    fn name(&self) -> &str {
        "FILE-NAMESTRING"
    }

    fn description(&self) -> (r: &str)
        ensures
            r@ == "Get filename component as string"@,
    {
        "Get filename component as string"
    }

    fn execute(&self, args: &[Value]) -> (r: Result<Value, Error>)
        ensures
            match first_string("FILE-NAMESTRING"@, "Expected pathname"@, models(args@)) {
                Err(e) => outcome(r) == Err::<Val, ErrV>(e),
                Ok(p) => r matches Ok(v) && v.model() matches Val::Str(x) && file_name_fits(
                    p,
                    if x.len() == 0 {
                        None
                    } else {
                        Some(x)
                    },
                ),
            },
    {
        if args.len() == 0 {
            return Err(invalid_args("FILE-NAMESTRING", "Expected pathname"));
        }
        let path_str = args[0].as_string()?;
        match path_file_name(path_str) {
            Some(n) => Ok(Value::String(n)),
            None => Ok(Value::String(String::new())),
        }
    }
}

/// ENOUGH-NAMESTRING - Get relative pathname
pub struct EnoughNamestringTool;

impl Tool for EnoughNamestringTool {
    open spec fn names_itself(&self) -> bool {
        true
    }

    open spec fn spec_name(&self) -> Seq<char> {
        "ENOUGH-NAMESTRING"@
    }

    fn name(&self) -> &str {
        "ENOUGH-NAMESTRING"
    }

    fn description(&self) -> (r: &str)
        ensures
            r@ == "Get relative pathname from base"@,
    {
        "Get relative pathname from base"
    }

    fn execute(&self, args: &[Value]) -> (r: Result<Value, Error>)
        ensures
            match two_strings("ENOUGH-NAMESTRING"@, "Expected pathname and base pathname"@, models(args@)) {
                Err(e) => outcome(r) == Err::<Val, ErrV>(e),
                Ok((p, _)) => r matches Ok(v) && v.model() matches Val::Str(x) && enough_fits(p, x),
            },
    {
        if args.len() < 2 {
            return Err(invalid_args("ENOUGH-NAMESTRING", "Expected pathname and base pathname"));
        }
        let path_str = args[0].as_string()?;
        let base_str = args[1].as_string()?;
        let stripped = path_strip_prefix(path_str, base_str);
        let ghost o = opt_seq(stripped);
        assert(models(args@)[0] == args@[0].model());
        assert(strip_fits(models(args@)[0]->Str_0, o));
        let answer = match stripped {
            Some(rel) => rel,
            None => path_display(path_str),
        };
        assert(answer@ == or_path(o, path_str@));
        assert(enough_fits(models(args@)[0]->Str_0, answer@));
        Ok(Value::String(answer))
    }
}
} // verus!
