use vstd::prelude::*;
use vstd::string::{StrSliceExecFns, StringExecFns};
use crate::json::{get_str, spec_get_str, JsonValue};
use crate::sandbox::{resolve_safe_path, spec_candidate, spec_path_allowed};
use crate::text::{
    rfind_char, s2, spec_octal_digits, spec_parse_u64_or_zero, spec_rfind, spec_tokens,
    parse_u64_or_zero, split_whitespace_vec, u32_to_octal_string,
};

verus! {

/// The sandboxed path a filesystem method will act on: the `path` field
/// must be present, and must resolve under the allowed root. No handler
/// touches the filesystem except through a path this check let through.
pub fn fs_path_plan(params: &JsonValue) -> (r: Result<String, String>)
    ensures
        spec_get_str(*params, "path"@).is_none() ==> (r matches Err(m) && m@
            == "Missing path"@),
        spec_get_str(*params, "path"@).is_some() ==> ({
            let p = spec_get_str(*params, "path"@).unwrap();
            if spec_path_allowed(p) {
                r matches Ok(t) && t@ == spec_candidate(p)
            } else {
                r matches Err(m) && m@ == "Access denied: Path must be within /home"@
            }
        }),
{
    let path = match get_str(params, "path") {
        Some(s) => s,
        None => {
            return Err(String::from_str("Missing path"));
        },
    };
    resolve_safe_path(path.as_str())
}

/// The existence requirement: a path is probed only after the sandbox
/// has let it through, never before.
pub fn path_exists_check(exists: bool) -> (r: Result<(), String>)
    ensures
        exists ==> r is Ok,
        !exists ==> (r matches Err(m) && m@ == "Path does not exist"@),
{
    if exists {
        Ok(())
    } else {
        Err(String::from_str("Path does not exist"))
    }
}

/// The plan for `write_file`: the sandboxed target and the text to put
/// there.
#[derive(Debug)]
pub struct WriteFilePlan {
    pub path: String,
    pub content: String,
}

/// Validate the parameters of `write_file`.
pub fn write_file_plan(params: &JsonValue) -> (r: Result<WriteFilePlan, String>)
    ensures
        spec_get_str(*params, "path"@).is_none() ==> (r matches Err(m) && m@
            == "Missing path"@),
        spec_get_str(*params, "path"@).is_some() && spec_get_str(*params, "content"@).is_none()
            ==> (r matches Err(m) && m@ == "Missing content"@),
        spec_get_str(*params, "path"@).is_some() && spec_get_str(
            *params,
            "content"@,
        ).is_some() ==> ({
            let p = spec_get_str(*params, "path"@).unwrap();
            let c = spec_get_str(*params, "content"@).unwrap();
            if spec_path_allowed(p) {
                r matches Ok(w) && w.path@ == spec_candidate(p) && w.content@ == c
            } else {
                r matches Err(m) && m@ == "Access denied: Path must be within /home"@
            }
        }),
{
    let path = match get_str(params, "path") {
        Some(s) => s,
        None => {
            return Err(String::from_str("Missing path"));
        },
    };
    let content = match get_str(params, "content") {
        Some(s) => s.clone(),
        None => {
            return Err(String::from_str("Missing content"));
        },
    };
    match resolve_safe_path(path.as_str()) {
        Ok(target) => Ok(WriteFilePlan { path: target, content }),
        Err(m) => Err(m),
    }
}

/// The plan for `rename_file`: both endpoints sandboxed, the source
/// checked first.
#[derive(Debug)]
pub struct RenamePlan {
    pub from: String,
    pub to: String,
}

/// Validate the parameters of `rename_file`.
pub fn rename_file_plan(params: &JsonValue) -> (r: Result<RenamePlan, String>)
    ensures
        spec_get_str(*params, "from"@).is_none() ==> (r matches Err(m) && m@
            == "Missing from path"@),
        spec_get_str(*params, "from"@).is_some() && spec_get_str(*params, "to"@).is_none()
            ==> (r matches Err(m) && m@ == "Missing to path"@),
        spec_get_str(*params, "from"@).is_some() && spec_get_str(
            *params,
            "to"@,
        ).is_some() ==> ({
            let f = spec_get_str(*params, "from"@).unwrap();
            let t = spec_get_str(*params, "to"@).unwrap();
            if !spec_path_allowed(f) || !spec_path_allowed(t) {
                r matches Err(m) && m@ == "Access denied: Path must be within /home"@
            } else {
                r matches Ok(p) && p.from@ == spec_candidate(f) && p.to@ == spec_candidate(t)
            }
        }),
{
    let from = match get_str(params, "from") {
        Some(s) => s,
        None => {
            return Err(String::from_str("Missing from path"));
        },
    };
    let to = match get_str(params, "to") {
        Some(s) => s,
        None => {
            return Err(String::from_str("Missing to path"));
        },
    };
    let from_path = match resolve_safe_path(from.as_str()) {
        Ok(t) => t,
        Err(m) => {
            return Err(m);
        },
    };
    let to_path = match resolve_safe_path(to.as_str()) {
        Ok(t) => t,
        Err(m) => {
            return Err(m);
        },
    };
    Ok(RenamePlan { from: from_path, to: to_path })
}

/// What one directory entry looks like to the listing, as plain values.
#[derive(Debug)]
pub struct FileEntry {
    pub name: String,
    pub is_dir: bool,
    pub size: u64,
    pub modified: u64,
    pub mode: u32,
}

/// Whether `v` is the wire object for one listed entry.
pub open spec fn spec_is_entry_json(v: JsonValue, e: FileEntry) -> bool {
    &&& v matches JsonValue::Obj(fs)
    &&& fs@.len() == 5
    &&& fs@[0].0@ == "name"@
    &&& (fs@[0].1 matches JsonValue::Str(s) && s@ == e.name@)
    &&& fs@[1].0@ == "type"@
    &&& (fs@[1].1 matches JsonValue::Str(s) && s@ == (if e.is_dir {
        "directory"@
    } else {
        "file"@
    }))
    &&& fs@[2].0@ == "size"@
    &&& fs@[2].1 == JsonValue::UInt(e.size)
    &&& fs@[3].0@ == "modified"@
    &&& fs@[3].1 == JsonValue::UInt(e.modified)
    &&& fs@[4].0@ == "permissions"@
    &&& (fs@[4].1 matches JsonValue::Str(s) && s@ == spec_octal_digits((e.mode & 0x1ff) as int))
}

/// The wire array `list_files` answers with: each entry's name, kind,
/// size, modification time and octal permission bits.
pub fn render_file_entries(entries: &Vec<FileEntry>) -> (r: JsonValue)
    ensures
        r matches JsonValue::Arr(items) && items@.len() == entries@.len() && forall|i: int|
            0 <= i < entries@.len() ==> spec_is_entry_json(#[trigger] items@[i], entries@[i]),
{
    let mut items: Vec<JsonValue> = Vec::new();
    let n = entries.len();
    let mut i: usize = 0;
    while i < n
        invariant
            n == entries@.len(),
            i <= n,
            items@.len() == i,
            forall|k: int| 0 <= k < i ==> spec_is_entry_json(#[trigger] items@[k], entries@[k]),
        decreases n - i,
    {
        let e = &entries[i];
        let kind = if e.is_dir {
            String::from_str("directory")
        } else {
            String::from_str("file")
        };
        let mut fs: Vec<(String, JsonValue)> = Vec::new();
        fs.push((String::from_str("name"), JsonValue::Str(e.name.clone())));
        fs.push((String::from_str("type"), JsonValue::Str(kind)));
        fs.push((String::from_str("size"), JsonValue::UInt(e.size)));
        fs.push((String::from_str("modified"), JsonValue::UInt(e.modified)));
        fs.push(
            (String::from_str("permissions"), JsonValue::Str(u32_to_octal_string(e.mode & 0x1ff))),
        );
        items.push(JsonValue::Obj(fs));
        i += 1;
    }
    JsonValue::Arr(items)
}

/// The size a successful disk-usage run reports: its output's first
/// column, read as a number, zero when absent or unreadable.
pub open spec fn spec_du_size(stdout: Seq<char>) -> int {
    let ts = spec_tokens(stdout);
    if ts.len() == 0 {
        0
    } else {
        spec_parse_u64_or_zero(ts[0])
    }
}

/// The answer for `get_directory_size` once the usage tool has run.
pub fn directory_size_report(command_ok: bool, stdout: &str, stderr: &str) -> (r: Result<
    u64,
    String,
>)
    ensures
        command_ok ==> (r matches Ok(n) && n as int == spec_du_size(stdout@)),
        !command_ok ==> (r matches Err(m) && m@ == "Failed to get directory size: "@ + stderr@),
{
    if command_ok {
        let parts = split_whitespace_vec(stdout);
        if parts.len() == 0 {
            Ok(0)
        } else {
            proof {
                assert(parts.deep_view()[0] == parts@[0]@);
            }
            Ok(parse_u64_or_zero(parts[0].as_str()))
        }
    } else {
        Err(s2("Failed to get directory size: ", stderr))
    }
}

/// The enclosing directory of a path, read lexically: the text before
/// the last separator, the bare root for a top-level entry, and the root
/// itself for an empty path or the root.
pub open spec fn spec_parent_arg(s: Seq<char>) -> Seq<char> {
    if s.len() == 0 || s == "/"@ {
        "/"@
    } else if spec_rfind(s, '/') < 0 {
        Seq::<char>::empty()
    } else if spec_rfind(s, '/') == 0 {
        "/"@
    } else {
        s.take(spec_rfind(s, '/'))
    }
}

/// The last path component, read lexically: the text after the last
/// separator, or the whole path when it has none.
pub open spec fn spec_file_name_arg(s: Seq<char>) -> Seq<char> {
    if spec_rfind(s, '/') < 0 {
        s
    } else {
        s.skip(spec_rfind(s, '/') + 1)
    }
}

/// The enclosing directory of `path`, read lexically.
pub fn path_parent_arg(path: &str) -> (r: String)
    ensures
        r@ == spec_parent_arg(path@),
{
    let len = path.unicode_len();
    if len == 0 {
        return String::from_str("/");
    }
    if len == 1 && path.get_char(0) == '/' {
        proof {
            reveal_strlit("/");
            assert(path@ =~= "/"@);
        }
        return String::from_str("/");
    }
    proof {
        reveal_strlit("/");
        assert(path@ != "/"@);
    }
    match rfind_char(path, '/') {
        None => {
            proof {
                assert(spec_rfind(path@, '/') < 0);
                assert(spec_parent_arg(path@) =~= Seq::<char>::empty());
            }
            String::new()
        },
        Some(j) => {
            if j == 0 {
                proof {
                    assert(spec_parent_arg(path@) =~= "/"@);
                }
                String::from_str("/")
            } else {
                proof {
                    assert(spec_parent_arg(path@) =~= path@.take(j as int));
                }
                String::from_str(path.substring_char(0, j))
            }
        },
    }
}

/// The last component of `path`, read lexically.
pub fn path_file_name_arg(path: &str) -> (r: String)
    ensures
        r@ == spec_file_name_arg(path@),
{
    let len = path.unicode_len();
    match rfind_char(path, '/') {
        None => {
            proof {
                assert(spec_file_name_arg(path@) =~= path@);
            }
            String::from_str(path)
        },
        Some(j) => {
            proof {
                assert(spec_file_name_arg(path@) =~= path@.skip(j + 1));
            }
            String::from_str(path.substring_char(j + 1, len))
        },
    }
}

/// The answer once a sandboxed write has gone through.
pub fn write_file_success() -> (r: String)
    ensures
        r@ == "File written successfully"@,
{
    String::from_str("File written successfully")
}

/// The answer once a sandboxed removal has gone through.
pub fn delete_file_success() -> (r: String)
    ensures
        r@ == "Item deleted successfully"@,
{
    String::from_str("Item deleted successfully")
}

/// The answer once a sandboxed directory creation has gone through.
pub fn create_directory_success() -> (r: String)
    ensures
        r@ == "Directory created successfully"@,
{
    String::from_str("Directory created successfully")
}

/// The answer once a sandboxed rename has gone through.
pub fn rename_file_success() -> (r: String)
    ensures
        r@ == "Item renamed successfully"@,
{
    String::from_str("Item renamed successfully")
}

} // verus!
