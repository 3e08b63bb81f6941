use vstd::prelude::*;
use vstd::string::StrSliceExecFns;

use crate::eval::{CommandEvent, ExitStatus};
use crate::os::change_dir;
use crate::parser::views;

verus! {

/// Why a builtin could not run.
#[derive(Debug)]
pub enum BuiltinError {
    /// No builtin has this name.
    UnknownBuiltin { cmd: String },
    /// The builtin was given fewer arguments than it needs.
    NotEnoughParams { cmd: String, args: Vec<String>, expected: u32 },
    /// The builtin was given more arguments than it takes.
    TooManyParams { cmd: String, args: Vec<String>, expected: u32 },
    /// The working directory could not be changed to `dir`.
    Chdir { dir: String, source: nix::Error },
    /// `cd` without an argument, and no home directory is known.
    ChdirUnknownHome,
}

/// The name of the one builtin.
pub open spec fn cd_name() -> Seq<char> {
    seq!['c', 'd']
}

/// True when `s` is `cd`.
pub fn is_cd(s: &str) -> (r: bool)
    ensures
        r == (s@ == cd_name()),
{
    let n = s.unicode_len();
    if n != 2 {
        return false;
    }
    let r = s.get_char(0) == 'c' && s.get_char(1) == 'd';
    assert(r ==> s@ =~= cd_name());
    r
}

/// Returns the string `cd`.
fn cd_string() -> (r: String)
    ensures
        r@ == cd_name(),
{
    let r = String::from_str("cd");
    proof {
        reveal_strlit("cd");
    }
    r
}

/// Returns a copy of `v`.
pub fn clone_strings(v: &[String]) -> (r: Vec<String>)
    ensures
        views(r@) == views(v@),
{
    let mut r: Vec<String> = Vec::new();
    let mut i: usize = 0;
    while i < v.len()
        invariant
            i <= v@.len(),
            views(r@) == views(v@.subrange(0, i as int)),
        decreases v@.len() - i,
    {
        let s = v[i].clone();
        let ghost before = r@;
        r.push(s);
        assert(v@.subrange(0, i as int + 1) =~= v@.subrange(0, i as int).push(v@[i as int]));
        assert(views(r@) =~= views(before).push(v@[i as int]@));
        assert(views(r@) =~= views(v@.subrange(0, i as int + 1)));
        i = i + 1;
    }
    assert(v@.subrange(0, v@.len() as int) == v@);
    r
}

/// The characters of an optional string.
pub open spec fn home_view(home: Option<String>) -> Option<Seq<char>> {
    match home {
        Some(h) => Some(h@),
        None => None,
    }
}

/// Where `cd` with `args` goes: its one argument, else the home directory.
/// `None` where it fails before trying.
pub open spec fn cd_dir(args: Seq<Seq<char>>, home: Option<Seq<char>>) -> Option<Seq<char>> {
    if args.len() > 1 {
        None
    } else if args.len() == 1 {
        Some(args[0])
    } else {
        home
    }
}

/// The directory that `cd` with `args` changes to; fails with
/// `TooManyParams` for more than one argument and with `ChdirUnknownHome`
/// for none where `home` is unknown.
pub fn cd_target(args: &[String], home: Option<String>) -> (r: Result<String, BuiltinError>)
    ensures
        match r {
            Ok(dir) => cd_dir(views(args@), home_view(home)) == Some(dir@),
            Err(BuiltinError::TooManyParams { cmd, args: given, expected }) => {
                &&& args@.len() > 1
                &&& cmd@ == cd_name()
                &&& views(given@) == views(args@)
                &&& expected == 1
            },
            Err(BuiltinError::ChdirUnknownHome) => args@.len() == 0 && home is None,
            Err(_) => false,
        },
{
    if args.len() > 1 {
        return Err(BuiltinError::TooManyParams { cmd: cd_string(), args: clone_strings(args), expected: 1 });
    }
    if args.len() == 1 {
        return Ok(args[0].clone());
    }
    match home {
        Some(h) => Ok(h),
        None => Err(BuiltinError::ChdirUnknownHome),
    }
}

/// What `cd` to `dir` reports once the change of directory gave `result`.
pub fn cd_result(dir: String, result: Result<(), nix::Error>) -> (r: Result<(), BuiltinError>)
    ensures
        match result {
            Ok(()) => r is Ok,
            Err(e) => match r {
                Err(BuiltinError::Chdir { dir: d, source }) => d@ == dir@ && source == e,
                _ => false,
            },
        },
{
    match result {
        Ok(()) => Ok(()),
        Err(e) => Err(BuiltinError::Chdir { dir, source: e }),
    }
}

/// The `cd` builtin: changes the working directory to its one argument, or
/// to `home` without one.
pub fn cd(args: &[String], home: Option<String>) -> (r: Result<(), BuiltinError>)
    ensures
        match cd_dir(views(args@), home_view(home)) {
            None => {
                &&& args@.len() > 1 ==> (r matches Err(BuiltinError::TooManyParams { .. }))
                &&& args@.len() <= 1 ==> r == Err::<(), BuiltinError>(BuiltinError::ChdirUnknownHome)
            },
            Some(dir) => match r {
                Ok(()) => true,
                Err(BuiltinError::Chdir { dir: d, .. }) => d@ == dir,
                Err(_) => false,
            },
        },
{
    match cd_target(args, home) {
        Ok(dir) => {
            let result = change_dir(dir.as_str());
            cd_result(dir, result)
        },
        Err(e) => Err(e),
    }
}

/// The abstract state of a builtin's event stream.
pub struct BuiltinView {
    pub cmd: Seq<char>,
    pub args: Seq<Seq<char>>,
    pub started: bool,
    pub done: bool,
}

/// A builtin command run as an event stream: it starts, runs once, and ends.
pub struct Builtin {
    cmd: String,
    args: Vec<String>,
    started: bool,
    done: bool,
}

impl View for Builtin {
    type V = BuiltinView;

    closed spec fn view(&self) -> BuiltinView {
        BuiltinView {
            cmd: self.cmd@,
            args: views(self.args@),
            started: self.started,
            done: self.done,
        }
    }
}

/// Prepares the builtin `cmd` with `args`; fails with `UnknownBuiltin` for
/// a name that is no builtin.
pub fn exec(cmd: &str, args: &[String]) -> (r: Result<Builtin, BuiltinError>)
    ensures
        match r {
            Ok(b) => {
                &&& cmd@ == cd_name()
                &&& b.wf()
                &&& b@ == BuiltinView {
                    cmd: cmd@,
                    args: views(args@),
                    started: false,
                    done: false,
                }
            },
            Err(BuiltinError::UnknownBuiltin { cmd: c }) => cmd@ != cd_name() && c@ == cmd@,
            Err(_) => false,
        },
{
    Builtin::new(cmd, args)
}

impl Builtin {
    /// The stream's invariant: it runs a known builtin, and it runs only
    /// after it started.
    pub open spec fn wf(&self) -> bool {
        &&& self@.cmd == cd_name()
        &&& self@.done ==> self@.started
    }

    /// See `exec`.
    pub fn new(cmd: &str, args: &[String]) -> (r: Result<Self, BuiltinError>)
        ensures
            match r {
                Ok(b) => {
                    &&& cmd@ == cd_name()
                    &&& b.wf()
                    &&& b@ == BuiltinView {
                        cmd: cmd@,
                        args: views(args@),
                        started: false,
                        done: false,
                    }
                },
                Err(BuiltinError::UnknownBuiltin { cmd: c }) => cmd@ != cd_name() && c@ == cmd@,
                Err(_) => false,
            },
    {
        if is_cd(cmd) {
            Ok(Builtin {
                cmd: cmd.to_owned(),
                args: clone_strings(args),
                started: false,
                done: false,
            })
        } else {
            Err(BuiltinError::UnknownBuiltin { cmd: cmd.to_owned() })
        }
    }

    /// Advances the stream by one event. The first poll reports the start;
    /// the second runs the builtin (`cd` falls back to `home`) and reports
    /// its exit, or fails with the builtin's error; after that the stream
    /// has ended (`None`).
    pub fn poll(&mut self, home: Option<String>) -> (r: Result<Option<CommandEvent>, BuiltinError>)
        requires
            old(self).wf(),
        ensures
            final(self).wf(),
            final(self)@.cmd == old(self)@.cmd,
            final(self)@.args == old(self)@.args,
            final(self)@.started,
            final(self)@.done == old(self)@.started,
            !old(self)@.started ==> match r {
                Ok(Some(CommandEvent::Start(c, a))) => c@ == old(self)@.cmd && views(a@)
                    == old(self)@.args,
                _ => false,
            },
            old(self)@.started && !old(self)@.done ==> match cd_dir(
                old(self)@.args,
                home_view(home),
            ) {
                None => {
                    &&& old(self)@.args.len() > 1 ==> (r matches Err(
                        BuiltinError::TooManyParams { .. },
                    ))
                    &&& old(self)@.args.len() <= 1 ==> (r matches Err(
                        BuiltinError::ChdirUnknownHome,
                    ))
                },
                Some(dir) => match r {
                    Ok(Some(CommandEvent::Exit(status))) => status == ExitStatus::Exited(0),
                    Err(BuiltinError::Chdir { dir: d, .. }) => d@ == dir,
                    _ => false,
                },
            },
            old(self)@.done ==> (r matches Ok(None)),
    {
        if !self.started {
            self.started = true;
            let args = clone_strings(self.args.as_slice());
            Ok(Some(CommandEvent::Start(self.cmd.clone(), args)))
        } else if !self.done {
            self.done = true;
            let res = if is_cd(self.cmd.as_str()) {
                cd(self.args.as_slice(), home)
            } else {
                Err(BuiltinError::UnknownBuiltin { cmd: self.cmd.clone() })
            };
            match res {
                Ok(()) => Ok(Some(CommandEvent::Exit(ExitStatus::Exited(0)))),
                Err(e) => Err(e),
            }
        } else {
            Ok(None)
        }
    }
}

} // verus!
