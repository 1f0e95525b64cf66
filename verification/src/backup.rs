//! Backup naming: where a file's backup lives and what it is called.
//! The copies themselves are file I/O and belong to the host; the naming
//! rule is the library's.

use vstd::prelude::*;
use crate::pathnames::{file_name, join_path, parent_of, spec_file_name, spec_join, spec_parent};

verus! {

/// One backup: the file it protects and where the copy lives.
#[derive(Debug, Clone, PartialEq, Eq)]
pub struct BackupInfo {
    pub original_path: String,
    pub backup_path: String,
}

/// The hidden directory, beside the original file, that holds backups.
pub open spec fn spec_backup_dir(p: Seq<char>) -> Seq<char> {
    spec_join(spec_parent(p), ".image_optimizer_backups"@)
}

/// The decimal digits of a number, most significant first.
pub open spec fn spec_dec(n: nat) -> Seq<char>
    decreases n,
{
    if n < 10 {
        seq![(('0' as u32) + n) as char]
    } else {
        spec_dec(n / 10) + seq![(('0' as u32) + n % 10) as char]
    }
}

/// A backup file's name: the timestamp, an underscore, and the original
/// file name.
pub open spec fn spec_backup_name(timestamp: u64, p: Seq<char>) -> Seq<char> {
    spec_dec(timestamp as nat) + "_"@ + spec_file_name(p)
}

/// One decimal digit as a string.
fn digit_str(d: u64) -> (r: &'static str)
    requires
        d < 10,
    ensures
        r@ == seq![(('0' as u32) + d) as char],
{
    proof {
        reveal_strlit("0");
        reveal_strlit("1");
        reveal_strlit("2");
        reveal_strlit("3");
        reveal_strlit("4");
        reveal_strlit("5");
        reveal_strlit("6");
        reveal_strlit("7");
        reveal_strlit("8");
        reveal_strlit("9");
    }
    let r = match d {
        0 => "0",
        1 => "1",
        2 => "2",
        3 => "3",
        4 => "4",
        5 => "5",
        6 => "6",
        7 => "7",
        8 => "8",
        _ => "9",
    };
    proof {
        assert(r@ =~= seq![(('0' as u32) + d) as char]);
    }
    r
}

/// Renders a number in decimal.
pub fn u64_to_string(n: u64) -> (r: String)
    ensures
        r@ == spec_dec(n as nat),
    decreases n,
{
    if n < 10 {
        digit_str(n).to_owned()
    } else {
        let mut s = u64_to_string(n / 10);
        s.append(digit_str(n % 10));
        s
    }
}

/// The directory a backup of this file goes to.
pub fn backup_dir_for(path: &str) -> (r: String)
    ensures
        r@ == spec_backup_dir(path@),
{
    let parent = parent_of(path);
    join_path(parent, ".image_optimizer_backups")
}

/// The name a backup of this file takes at the given timestamp.
pub fn backup_file_name(timestamp: u64, path: &str) -> (r: String)
    ensures
        r@ == spec_backup_name(timestamp, path@),
{
    proof {
        reveal_strlit("_");
    }
    let mut s = u64_to_string(timestamp);
    s.append("_");
    s.append(file_name(path));
    s
}

/// The full path a backup of this file is written to.
pub fn backup_path_for(timestamp: u64, path: &str) -> (r: String)
    ensures
        r@ == spec_join(spec_backup_dir(path@), spec_backup_name(timestamp, path@)),
{
    let dir = backup_dir_for(path);
    let name = backup_file_name(timestamp, path);
    join_path(dir.as_str(), name.as_str())
}

} // verus!
