use vstd::prelude::*;
use vstd::string::StringExecFns;

verus! {

/// `parts` separated by single spaces.
pub open spec fn joined(parts: Seq<Seq<char>>) -> Seq<char>
    decreases parts.len(),
{
    if parts.len() == 0 {
        Seq::empty()
    } else if parts.len() == 1 {
        parts[0]
    } else {
        joined(parts.drop_last()) + " "@ + parts.last()
    }
}

/// The resolver command that writes the snapshot of `packages` to `path`.
pub open spec fn generation_command_text(packages: Seq<Seq<char>>, path: Seq<char>) -> Seq<char> {
    "rez env "@ + joined(packages) + " -o "@ + path
}

/// The resolver command that opens an environment from the snapshot at `path`.
pub open spec fn load_command_text(path: Seq<char>) -> Seq<char> {
    "rez env -i "@ + path
}

/// The resolver command that runs `tool` in an environment of `packages`.
pub open spec fn tool_command_text(tool: Seq<char>, packages: Seq<Seq<char>>) -> Seq<char> {
    "rez env "@ + joined(packages) + " -- "@ + tool
}

/// The resolver command that opens an environment of `packages`.
pub open spec fn env_command_text(packages: Seq<Seq<char>>) -> Seq<char> {
    "rez env "@ + joined(packages)
}

/// The name of a temporary snapshot file.
pub open spec fn snapshot_file_name_text(prefix: Seq<char>, timestamp: Seq<char>, suffix: Seq<char>) -> Seq<char> {
    prefix + "_"@ + timestamp + "_"@ + suffix + ".rxt"@
}

pub open spec fn is_ascii_alphanumeric(c: char) -> bool {
    ('0' <= c <= '9') || ('a' <= c <= 'z') || ('A' <= c <= 'Z')
}

/// The strings of `parts` separated by single spaces.
pub fn join_with_spaces(parts: &Vec<String>) -> (r: String)
    ensures
        r@ == joined(parts.deep_view()),
{
    let ghost ps = parts.deep_view();
    let mut r = String::new();
    let mut i: usize = 0;
    while i < parts.len()
        invariant
            i <= parts@.len(),
            ps == parts.deep_view(),
            r@ == joined(ps.take(i as int)),
        decreases parts@.len() - i,
    {
        assert(ps.take(i + 1).drop_last() =~= ps.take(i as int));
        if i > 0 {
            r.append(" ");
        }
        r.append(parts[i].as_str());
        proof {
            if i == 0 {
                assert(ps.take(1)[0] == parts@[0]@);
                assert(r@ =~= joined(ps.take(1)));
            } else {
                assert(ps.take(i + 1).last() == parts@[i as int]@);
            }
        }
        i += 1;
    }
    assert(ps.take(i as int) =~= ps);
    r
}

/// The resolver command that writes the snapshot of `packages` to `path`.
pub fn generation_command(packages: &Vec<String>, path: &str) -> (r: String)
    ensures
        r@ == generation_command_text(packages.deep_view(), path@),
{
    let mut r = String::from_str("rez env ");
    r.append(join_with_spaces(packages).as_str());
    r.append(" -o ");
    r.append(path);
    r
}

/// The resolver command that opens an environment from the snapshot at `path`.
pub fn load_command(path: &str) -> (r: String)
    ensures
        r@ == load_command_text(path@),
{
    let mut r = String::from_str("rez env -i ");
    r.append(path);
    r
}

/// The resolver command that runs `tool` in an environment of `packages`.
pub fn tool_command(tool: &str, packages: &Vec<String>) -> (r: String)
    ensures
        r@ == tool_command_text(tool@, packages.deep_view()),
{
    let mut r = String::from_str("rez env ");
    r.append(join_with_spaces(packages).as_str());
    r.append(" -- ");
    r.append(tool);
    r
}

/// The resolver command that opens an environment of `packages`.
pub fn env_command(packages: &Vec<String>) -> (r: String)
    ensures
        r@ == env_command_text(packages.deep_view()),
{
    let mut r = String::from_str("rez env ");
    r.append(join_with_spaces(packages).as_str());
    r
}

/// The name of a temporary snapshot file: `prefix`, the time, a random part and
/// the extension, joined by underscores.
pub fn snapshot_file_name(prefix: &str, timestamp: &str, suffix: &str) -> (r: String)
    ensures
        r@ == snapshot_file_name_text(prefix@, timestamp@, suffix@),
{
    let mut r = String::from_str(prefix);
    r.append("_");
    r.append(timestamp);
    r.append("_");
    r.append(suffix);
    r.append(".rxt");
    r
}

/// Relies on rand's `Alphanumeric` distribution with `thread_rng` (rand 0.8):
/// `sample_string` gives `len` characters, each an ASCII letter or digit.
#[verifier::external_body]
fn random_alphanumeric(len: usize) -> (r: String)
    ensures
        r@.len() == len,
        forall|i: int| 0 <= i < len ==> is_ascii_alphanumeric(#[trigger] r@[i]),
{
    <rand::distributions::Alphanumeric as rand::distributions::DistString>::sample_string(
        &rand::distributions::Alphanumeric,
        &mut rand::thread_rng(),
        len,
    )
}

/// Relies on chrono's `Utc::now`, formatted as `%Y%m%d_%H%M%S`; nothing is
/// assumed of the text.
#[verifier::external_body]
fn utc_timestamp() -> String {
    chrono::Utc::now().format("%Y%m%d_%H%M%S").to_string()
}

/// A fresh name for a temporary snapshot file: the current time and eight random
/// letters or digits keep concurrent calls apart.
pub fn fresh_snapshot_file_name(prefix: &str) -> (r: String)
    ensures
        exists|timestamp: Seq<char>, suffix: Seq<char>|
            suffix.len() == 8 && (forall|i: int| 0 <= i < 8 ==> is_ascii_alphanumeric(#[trigger] suffix[i]))
                && r@ == snapshot_file_name_text(prefix@, timestamp, suffix),
{
    let timestamp = utc_timestamp();
    let suffix = random_alphanumeric(8);
    let r = snapshot_file_name(prefix, timestamp.as_str(), suffix.as_str());
    assert(suffix@.len() == 8 && (forall|i: int| 0 <= i < 8 ==> is_ascii_alphanumeric(#[trigger] suffix@[i]))
        && r@ == snapshot_file_name_text(prefix@, timestamp@, suffix@));
    r
}

} // verus!
