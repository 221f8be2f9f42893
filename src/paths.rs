//! Where a vault keeps its files, relative to the vault directory.

use vstd::prelude::*;

verus! {

/// `dir` joined with a relative `name`: a separator is put between them
/// unless `dir` is empty or already ends with one.
pub open spec fn join_spec(dir: Seq<char>, name: Seq<char>) -> Seq<char> {
    if dir.len() == 0 {
        name
    } else if dir.last() == '/' {
        dir + name
    } else {
        dir + seq!['/'] + name
    }
}

pub open spec fn locked_name_spec(filename: Seq<char>) -> Seq<char> {
    ".locked_"@ + filename
}

pub open spec fn meta_name_spec(filename: Seq<char>) -> Seq<char> {
    locked_name_spec(filename) + ".meta.json"@
}

/// Joins a relative `name` onto the directory `dir`.
pub fn join(dir: &str, name: &str) -> (r: String)
    ensures
        r@ == join_spec(dir@, name@),
{
    let n = dir.unicode_len();
    let base = String::from_str(dir);
    if n == 0 {
        String::from_str(name)
    } else if dir.get_char(n - 1) == '/' {
        base.concat(name)
    } else {
        proof {
            reveal_strlit("/");
        }
        base.concat("/").concat(name)
    }
}

/// The vault metadata file inside `vault_dir`.
pub fn vault_meta_path(vault_dir: &str) -> (r: String)
    ensures
        r@ == join_spec(vault_dir@, "vault_metadata.json"@),
{
    join(vault_dir, "vault_metadata.json")
}

/// The directory of sealed per-file envelopes inside `vault_dir`.
pub fn files_meta_dir(vault_dir: &str) -> (r: String)
    ensures
        r@ == join_spec(vault_dir@, "files_meta"@),
{
    join(vault_dir, "files_meta")
}

/// Name of the blob holding a file's sealed contents.
pub fn locked_name(filename: &str) -> (r: String)
    ensures
        r@ == locked_name_spec(filename@),
{
    String::from_str(".locked_").concat(filename)
}

/// Name of the envelope holding a file's sealed metadata.
pub fn meta_name(filename: &str) -> (r: String)
    ensures
        r@ == meta_name_spec(filename@),
{
    locked_name(filename).concat(".meta.json")
}

} // verus!
