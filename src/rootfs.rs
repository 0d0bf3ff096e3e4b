use vstd::prelude::*;
use vstd::string::StringExecFns;

verus! {

/// Directory, relative to the disposable root, that holds the device files.
pub const DEV_DIR: &'static str = "dev";

/// Empty file, relative to the disposable root, that stands for the null device.
pub const NULL_DEVICE: &'static str = "dev/null";

/// What the target program and its arguments are, as taken from the command line.
#[derive(Debug, Clone, PartialEq, Eq)]
pub struct ContainerSpec {
    /// Path of the target binary on the host.
    pub command: String,
    /// Arguments handed to the target binary.
    pub args: Vec<String>,
}

impl ContainerSpec {
    /// Reads a command line of the form `<program> run <image> <command> [arg...]`.
    pub fn parse(argv: &Vec<String>) -> (r: ContainerSpec)
        requires
            argv@.len() >= 4,
        ensures
            r.command == argv@[3],
            r.args@ == argv@.subrange(4, argv@.len() as int),
    {
        let command = argv[3].clone();
        let mut args: Vec<String> = Vec::new();
        let mut i: usize = 4;
        while i < argv.len()
            invariant
                4 <= i <= argv@.len(),
                args@ == argv@.subrange(4, i as int),
            decreases argv@.len() - i,
        {
            args.push(argv[i].clone());
            i = i + 1;
            assert(args@ =~= argv@.subrange(4, i as int));
        }
        ContainerSpec { command, args }
    }
}

/// Index of the last `/` in a path, or -1 where it has none.
pub open spec fn last_slash(p: Seq<char>) -> int
    decreases p.len(),
{
    if p.len() == 0 {
        -1
    } else if p.last() == '/' {
        p.len() - 1
    } else {
        last_slash(p.drop_last())
    }
}

/// The file name of a path on Unix. The path is split at `/`, empty and `.`
/// components are passed over, and the last component left is the file
/// name; there is none where no component is left or the last one is `..`.
pub open spec fn file_name_of(p: Seq<char>) -> Option<Seq<char>>
    decreases p.len(),
{
    if p.len() == 0 {
        None
    } else if p.last() == '/' {
        file_name_of(p.drop_last())
    } else if p.last() == '.' && (p.len() == 1 || p[p.len() - 2] == '/') {
        file_name_of(p.drop_last())
    } else {
        let name = p.subrange(last_slash(p) + 1, p.len() as int);
        if name == seq!['.', '.'] {
            None
        } else {
            Some(name)
        }
    }
}

/// A name that addresses one entry of a directory: not empty, without `/`,
/// and neither `.` nor `..`.
pub open spec fn is_plain_name(n: Seq<char>) -> bool {
    &&& n.len() > 0
    &&& forall|i: int| 0 <= i < n.len() ==> n[i] != '/'
    &&& n != seq!['.']
    &&& n != seq!['.', '.']
}

proof fn lemma_last_slash(p: Seq<char>)
    ensures
        -1 <= last_slash(p) < p.len(),
        last_slash(p) >= 0 ==> p[last_slash(p)] == '/',
        forall|i: int| last_slash(p) < i < p.len() ==> p[i] != '/',
    decreases p.len(),
{
    if p.len() > 0 && p.last() != '/' {
        let q = p.drop_last();
        lemma_last_slash(q);
        assert forall|i: int| last_slash(p) < i < p.len() implies p[i] != '/' by {
            if i < q.len() {
                assert(p[i] == q[i]);
            }
        }
    }
}

proof fn lemma_file_name_is_plain(p: Seq<char>)
    ensures
        file_name_of(p) matches Some(n) ==> is_plain_name(n),
    decreases p.len(),
{
    if p.len() == 0 {
    } else if p.last() == '/' {
        lemma_file_name_is_plain(p.drop_last());
    } else if p.last() == '.' && (p.len() == 1 || p[p.len() - 2] == '/') {
        lemma_file_name_is_plain(p.drop_last());
    } else {
        lemma_last_slash(p);
        let k = last_slash(p);
        let name = p.subrange(k + 1, p.len() as int);
        assert(k < p.len() - 1);
        assert forall|i: int| 0 <= i < name.len() implies name[i] != '/' by {
            assert(name[i] == p[k + 1 + i]);
        }
        if name == seq!['.'] {
            assert(name.len() == 1);
            assert(k == p.len() - 2);
            assert(name[0] == p[p.len() - 1]);
        }
    }
}

/// The view of an optional string.
pub open spec fn opt_view(o: Option<String>) -> Option<Seq<char>> {
    match o {
        Some(s) => Some(s@),
        None => None,
    }
}

/// Relies on `std::path::Path::file_name`: on Unix, the last component of
/// the path where it is a name, with empty and `.` components passed over.
#[verifier::external_body]
fn file_name(path: &str) -> (r: Option<String>)
    ensures
        opt_view(r) == file_name_of(path@),
{
    match std::path::Path::new(path).file_name() {
        Some(n) => Some(n.to_string_lossy().into_owned()),
        None => None,
    }
}

/// Where the target binary goes in the disposable root, and how it is
/// addressed once the root has been changed.
#[derive(Debug, Clone, PartialEq, Eq)]
pub struct RootLayout {
    /// File name of the copy, at the top of the disposable root.
    pub binary_name: String,
    /// Absolute path of the copy after the root change: `/` and the file name.
    pub command: String,
}

/// The layout that a binary with this file name is given.
pub open spec fn layout_for(name: Seq<char>) -> (Seq<char>, Seq<char>) {
    (name, seq!['/'] + name)
}

/// The layout of the disposable root for a binary with this file name: the
/// copy keeps the name and is addressed as `/` and the name.
pub fn root_layout(name: String) -> (r: RootLayout)
    ensures
        (r.binary_name@, r.command@) == layout_for(name@),
{
    let mut command = String::from_str("/");
    command.append(name.as_str());
    proof {
        reveal_strlit("/");
        assert(command@ =~= seq!['/'] + name@);
    }
    RootLayout { binary_name: name, command }
}

/// Plans the disposable root for a target: its binary is copied under its
/// own file name, at the top of the root, and run as `/<file name>`. Fails
/// where the target's path has no file name.
pub fn plan_root(spec: &ContainerSpec) -> (r: Option<RootLayout>)
    ensures
        file_name_of(spec.command@) is None <==> r is None,
        r matches Some(l) ==> file_name_of(spec.command@) == Some(l.binary_name@)
            && (l.binary_name@, l.command@) == layout_for(l.binary_name@)
            && is_plain_name(l.binary_name@),
{
    proof {
        lemma_file_name_is_plain(spec.command@);
    }
    match file_name(spec.command.as_str()) {
        None => None,
        Some(name) => Some(root_layout(name)),
    }
}

} // verus!
