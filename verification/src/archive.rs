//! How backups are named.

use vstd::prelude::*;

verus! {

/// The character of the decimal digit `d`, for `d` from 0 to 9.
pub open spec fn digit_char(d: int) -> char {
    if d == 0 {
        '0'
    } else if d == 1 {
        '1'
    } else if d == 2 {
        '2'
    } else if d == 3 {
        '3'
    } else if d == 4 {
        '4'
    } else if d == 5 {
        '5'
    } else if d == 6 {
        '6'
    } else if d == 7 {
        '7'
    } else if d == 8 {
        '8'
    } else {
        '9'
    }
}

/// `n` in decimal, without sign or leading zeros.
pub open spec fn decimal(n: nat) -> Seq<char>
    decreases n,
{
    if n < 10 {
        seq![digit_char(n as int)]
    } else {
        decimal(n / 10).push(digit_char((n % 10) as int))
    }
}

/// The base name of the backup taken at `now_millis`, milliseconds since the epoch, of
/// the working directory that the version `version_id` ran in.
pub open spec fn backup_name(now_millis: u128, version_id: Seq<char>) -> Seq<char> {
    "backup-"@ + decimal(now_millis as nat) + "-"@ + version_id
}

/// The file name of the archive with the base name `base`.
pub open spec fn archive_file(base: Seq<char>) -> Seq<char> {
    base + ".tar.gz"@
}

fn digit_text(d: u8) -> (text: &'static str)
    requires
        d < 10,
    ensures
        text@ == seq![digit_char(d as int)],
{
    proof {
        reveal_strlit("0");
        reveal_strlit("1");
        reveal_strlit("2");
        reveal_strlit("3");
        reveal_strlit("4");
        reveal_strlit("5");
        reveal_strlit("6");
        reveal_strlit("7");
        reveal_strlit("8");
        reveal_strlit("9");
    }
    let text = match d {
        0 => "0",
        1 => "1",
        2 => "2",
        3 => "3",
        4 => "4",
        5 => "5",
        6 => "6",
        7 => "7",
        8 => "8",
        _ => "9",
    };
    assert(text@ =~= seq![digit_char(d as int)]);
    text
}

/// Appends `n` in decimal to `out`.
pub fn push_decimal(out: &mut String, n: u128)
    ensures
        final(out)@ == old(out)@ + decimal(n as nat),
    decreases n,
{
    if n >= 10 {
        push_decimal(out, n / 10);
    }
    out.append(digit_text((n % 10) as u8));
    assert(out@ =~= old(out)@ + decimal(n as nat)) by {
        if n >= 10 {
            assert(decimal(n as nat) == decimal((n / 10) as nat).push(
                digit_char((n % 10) as int),
            ));
        }
    }
}

/// The base name of the backup taken at `now_millis` of the directory that the version
/// `version_id` ran in: `backup-`, the time, a hyphen, the version.
pub fn archive_name(now_millis: u128, version_id: &str) -> (name: String)
    ensures
        name@ == backup_name(now_millis, version_id@),
{
    let mut name = String::from_str("backup-");
    push_decimal(&mut name, now_millis);
    name.append("-");
    name.append(version_id);
    name
}

/// The file name of the archive with the base name `base`.
pub fn archive_file_name(base: &str) -> (file_name: String)
    ensures
        file_name@ == archive_file(base@),
{
    let mut file_name = String::from_str(base);
    file_name.append(".tar.gz");
    file_name
}

} // verus!
