//! Whether a recorder already captures a given broadcast, judged from a
//! snapshot of the process table.

use vstd::prelude::*;

verus! {

/// One entry of the process table: the executable's name and its argument vector.
#[derive(Clone, Debug)]
pub struct ProcessInfo {
    pub name: String,
    pub cmd: Vec<String>,
}

/// The recorder's executable name on this platform.
pub open spec fn recorder_name(windows: bool) -> Seq<char> {
    if windows {
        "yt-dlp.exe"@
    } else {
        "yt-dlp"@
    }
}

/// `p` runs the program `name` with `url` among its arguments.
pub open spec fn targets(p: ProcessInfo, name: Seq<char>, url: Seq<char>) -> bool {
    &&& p.name@ == name
    &&& exists|j: int| 0 <= j < p.cmd@.len() && #[trigger] p.cmd@[j]@ == url
}

/// Some process of `procs` runs the program `name` on `url`.
pub open spec fn recording(procs: Seq<ProcessInfo>, name: Seq<char>, url: Seq<char>) -> bool {
    exists|i: int| 0 <= i < procs.len() && targets(#[trigger] procs[i], name, url)
}

/// The recorder's executable name: `yt-dlp`, with `.exe` on Windows.
pub fn recorder_binary(windows: bool) -> (r: String)
    ensures
        r@ == recorder_name(windows),
{
    let mut s = String::from_str("yt-dlp");
    if windows {
        s.append(".exe");
    }
    proof {
        reveal_strlit("yt-dlp");
        reveal_strlit(".exe");
        reveal_strlit("yt-dlp.exe");
        assert(recorder_name(windows) =~= s@);
    }
    s
}

/// Whether `cmd` holds `url` as one whole argument.
fn has_argument(cmd: &Vec<String>, url: &String) -> (r: bool)
    ensures
        r == exists|j: int| 0 <= j < cmd@.len() && #[trigger] cmd@[j]@ == url@,
{
    let mut j: usize = 0;
    while j < cmd.len()
        invariant
            j <= cmd@.len(),
            forall|k: int| 0 <= k < j ==> #[trigger] cmd@[k]@ != url@,
        decreases cmd@.len() - j,
    {
        if cmd[j] == *url {
            return true;
        }
        j = j + 1;
    }
    false
}

/// Whether a process named `recorder` already has `url` among its arguments.
pub fn is_already_recording(procs: &Vec<ProcessInfo>, recorder: &String, url: &String) -> (r: bool)
    ensures
        r == recording(procs@, recorder@, url@),
{
    let mut i: usize = 0;
    while i < procs.len()
        invariant
            i <= procs@.len(),
            forall|k: int| 0 <= k < i ==> !targets(#[trigger] procs@[k], recorder@, url@),
        decreases procs@.len() - i,
    {
        if procs[i].name == *recorder && has_argument(&procs[i].cmd, url) {
            assert(targets(procs@[i as int], recorder@, url@));
            return true;
        }
        i = i + 1;
    }
    false
}

} // verus!
