//! The launch request: what is to be run, on which root filesystem, and with
//! which address.

use crate::command::{push_text, texts};
use crate::text::{
    all_nul_free, chars_of, contains_nul, lemma_concat_nul_free, lemma_nul_free_by_chars, nul_free,
};
use vstd::prelude::*;
use vstd::string::StringExecFns;

verus! {

/// Whether `path` starts at the filesystem root.
pub open spec fn is_absolute(path: Seq<char>) -> bool {
    path.len() > 0 && path[0] == '/'
}

/// `child` seen from `base`: an absolute `child` stands for itself; a relative
/// one is appended to `base`, after a separator unless `base` is empty or
/// already ends with one.
pub open spec fn joined(base: Seq<char>, child: Seq<char>) -> Seq<char> {
    if is_absolute(child) {
        child
    } else if base.len() == 0 || base.last() == '/' {
        base + child
    } else {
        base + seq!['/'] + child
    }
}

/// The name of the old-root marker directory inside the new root.
pub open spec fn marker_name() -> Seq<char> {
    ".old_root"@
}

/// The path of the old-root marker of the root filesystem `root`.
pub open spec fn marker_of(root: Seq<char>) -> Seq<char> {
    joined(root, marker_name())
}

/// The argument vector of the command: its own path, then its arguments.
pub open spec fn argv_of(command: Seq<char>, args: Seq<Seq<char>>) -> Seq<Seq<char>> {
    seq![command] + args
}

/// Joining two NUL-free paths keeps NUL out.
pub proof fn lemma_joined_nul_free(base: Seq<char>, child: Seq<char>)
    requires
        nul_free(base),
        nul_free(child),
    ensures
        nul_free(joined(base, child)),
{
    let sep = seq!['/'];
    lemma_nul_free_by_chars(sep);
    lemma_concat_nul_free(base, child);
    lemma_concat_nul_free(base, sep);
    lemma_concat_nul_free(base + sep, child);
}

/// Tells whether `path` starts at the filesystem root.
pub fn path_is_absolute(path: &str) -> (absolute: bool)
    ensures
        absolute == is_absolute(path@),
{
    let chars = chars_of(path);
    chars.len() > 0 && chars[0] == '/'
}

/// Resolves `child` against `base`.
pub fn join(base: &str, child: &str) -> (path: String)
    ensures
        path@ == joined(base@, child@),
{
    if path_is_absolute(child) {
        String::from_str(child)
    } else {
        let chars = chars_of(base);
        let mut path = String::from_str(base);
        if chars.len() > 0 && chars[chars.len() - 1] != '/' {
            path.append("/");
            proof {
                reveal_strlit("/");
            }
        }
        path.append(child);
        path
    }
}

/// Why a launch request was refused.
#[derive(Clone, Copy, Debug, PartialEq, Eq, Structural)]
pub enum RequestError {
    /// The root path, resolved against the current directory, holds a NUL.
    NulInRoot,
    /// The root path, resolved against the current directory, does not start
    /// at the filesystem root.
    RelativeRoot,
    /// The address holds a NUL.
    NulInAddress,
    /// The command path holds a NUL.
    NulInCommand,
    /// The argument at `index` holds a NUL, and none before it does.
    NulInArgument { index: usize },
}

/// The mathematical content of a [`LaunchRequest`].
#[verifier::ext_equal]
pub struct RequestView {
    pub root: Seq<char>,
    pub address: Option<Seq<char>>,
    pub command: Seq<char>,
    pub args: Seq<Seq<char>>,
}

impl RequestView {
    /// Whether networking was requested.
    pub open spec fn networked(self) -> bool {
        self.address is Some
    }

    /// Whether the root is an absolute path and every text of the request
    /// can be handed to the kernel.
    pub open spec fn well_formed(self) -> bool {
        &&& nul_free(self.root)
        &&& is_absolute(self.root)
        &&& self.address matches Some(a) ==> nul_free(a)
        &&& nul_free(self.command)
        &&& all_nul_free(self.args)
    }
}

/// The view of an optional string.
pub open spec fn opt_text(text: Option<String>) -> Option<Seq<char>> {
    match text {
        Some(t) => Some(t@),
        None => None,
    }
}

/// What a request for `command` with `args` on `root` comes to, `root` being
/// resolved against `current_dir`.
pub open spec fn requested(
    root: Seq<char>,
    address: Option<Seq<char>>,
    command: Seq<char>,
    args: Seq<Seq<char>>,
    current_dir: Seq<char>,
) -> RequestView {
    RequestView { root: joined(current_dir, root), address, command, args }
}

/// What one launch is asked to do: run `command` with `args` on the root
/// filesystem `root`, reachable at `address` where one is given. Its root is
/// an absolute path, its texts hold no NUL, and nothing changes it once it is
/// built.
#[derive(Debug)]
pub struct LaunchRequest {
    root: String,
    address: Option<String>,
    command: String,
    args: Vec<String>,
}

impl View for LaunchRequest {
    type V = RequestView;

    closed spec fn view(&self) -> RequestView {
        RequestView {
            root: self.root@,
            address: opt_text(self.address),
            command: self.command@,
            args: texts(self.args@),
        }
    }
}

/// The index of the first element of `args` that holds a NUL.
fn first_argument_with_nul(args: &Vec<String>) -> (found: Option<usize>)
    ensures
        found is None ==> all_nul_free(texts(args@)),
        found matches Some(k) ==> {
            &&& k < args.len()
            &&& !nul_free(texts(args@)[k as int])
            &&& forall|j: int| 0 <= j < k ==> nul_free(#[trigger] texts(args@)[j])
        },
{
    let mut index: usize = 0;
    while index < args.len()
        invariant
            index <= args.len(),
            forall|j: int| 0 <= j < index ==> nul_free(#[trigger] texts(args@)[j]),
        decreases args.len() - index,
    {
        if contains_nul(args[index].as_str()) {
            return Some(index);
        }
        index += 1;
    }
    None
}

impl LaunchRequest {
    /// The root of a request is absolute, and every text is free of NUL.
    #[verifier::type_invariant]
    pub open spec fn inv(self) -> bool {
        self@.well_formed()
    }

    /// Builds the request for running `command` with `args` on the root
    /// filesystem `root`. A relative `root` is resolved against `current_dir`.
    /// The request is refused where a text holds a NUL, and where the
    /// resolved root is still relative; the first offender in the order root,
    /// address, command, arguments is reported.
    pub fn new(
        root: &str,
        address: Option<String>,
        command: String,
        args: Vec<String>,
        current_dir: &str,
    ) -> (result: Result<LaunchRequest, RequestError>)
        ensures
            result is Ok <==> requested(
                root@,
                opt_text(address),
                command@,
                texts(args@),
                current_dir@,
            ).well_formed(),
            match result {
                Ok(request) => request@ == requested(
                    root@,
                    opt_text(address),
                    command@,
                    texts(args@),
                    current_dir@,
                ),
                Err(RequestError::NulInRoot) => !nul_free(joined(current_dir@, root@)),
                Err(RequestError::RelativeRoot) => {
                    &&& nul_free(joined(current_dir@, root@))
                    &&& !is_absolute(joined(current_dir@, root@))
                },
                Err(RequestError::NulInAddress) => {
                    &&& nul_free(joined(current_dir@, root@))
                    &&& is_absolute(joined(current_dir@, root@))
                    &&& address matches Some(a) && !nul_free(a@)
                },
                Err(RequestError::NulInCommand) => {
                    &&& nul_free(joined(current_dir@, root@))
                    &&& is_absolute(joined(current_dir@, root@))
                    &&& address matches Some(a) ==> nul_free(a@)
                    &&& !nul_free(command@)
                },
                Err(RequestError::NulInArgument { index }) => {
                    &&& nul_free(joined(current_dir@, root@))
                    &&& is_absolute(joined(current_dir@, root@))
                    &&& address matches Some(a) ==> nul_free(a@)
                    &&& nul_free(command@)
                    &&& index < args.len()
                    &&& !nul_free(texts(args@)[index as int])
                    &&& forall|j: int| 0 <= j < index ==> nul_free(#[trigger] texts(args@)[j])
                },
            },
    {
        let resolved = join(current_dir, root);
        if contains_nul(resolved.as_str()) {
            return Err(RequestError::NulInRoot);
        }
        if !path_is_absolute(resolved.as_str()) {
            return Err(RequestError::RelativeRoot);
        }
        let address_has_nul = match &address {
            Some(a) => contains_nul(a.as_str()),
            None => false,
        };
        if address_has_nul {
            return Err(RequestError::NulInAddress);
        }
        if contains_nul(command.as_str()) {
            return Err(RequestError::NulInCommand);
        }
        match first_argument_with_nul(&args) {
            Some(index) => Err(RequestError::NulInArgument { index }),
            None => Ok(LaunchRequest { root: resolved, address, command, args }),
        }
    }

    /// The root filesystem of the container, as an absolute path.
    pub fn root(&self) -> (root: &str)
        ensures
            root@ == self@.root,
            nul_free(root@),
            is_absolute(root@),
    {
        proof {
            use_type_invariant(self);
        }
        self.root.as_str()
    }

    /// The address that the container is to bear, if networking is requested.
    pub fn address(&self) -> (address: Option<&str>)
        ensures
            match address {
                Some(a) => self@.address == Some(a@) && nul_free(a@),
                None => self@.address is None,
            },
    {
        proof {
            use_type_invariant(self);
        }
        match &self.address {
            Some(a) => Some(a.as_str()),
            None => None,
        }
    }

    /// Whether networking is requested.
    pub fn networked(&self) -> (networked: bool)
        ensures
            networked == self@.networked(),
    {
        self.address.is_some()
    }

    /// The path of the command to run.
    pub fn command(&self) -> (command: &str)
        ensures
            command@ == self@.command,
            nul_free(command@),
    {
        proof {
            use_type_invariant(self);
        }
        self.command.as_str()
    }

    /// The arguments of the command, without its own path.
    pub fn args(&self) -> (args: &Vec<String>)
        ensures
            texts(args@) == self@.args,
            all_nul_free(texts(args@)),
    {
        proof {
            use_type_invariant(self);
        }
        &self.args
    }

    /// The path of the old-root marker directory inside the root.
    pub fn old_root_marker(&self) -> (marker: String)
        ensures
            marker@ == marker_of(self@.root),
            nul_free(marker@),
    {
        proof {
            use_type_invariant(self);
            lemma_marker_name_nul_free();
            lemma_joined_nul_free(self@.root, marker_name());
        }
        join(self.root.as_str(), ".old_root")
    }

    /// The argument vector for the exec: the command's path, then its
    /// arguments.
    pub fn argv(&self) -> (argv: Vec<String>)
        ensures
            texts(argv@) == argv_of(self@.command, self@.args),
            all_nul_free(texts(argv@)),
    {
        proof {
            use_type_invariant(self);
        }
        let mut argv: Vec<String> = Vec::new();
        push_text(&mut argv, self.command.as_str());
        let mut index: usize = 0;
        while index < self.args.len()
            invariant
                index <= self.args.len(),
                texts(argv@) == seq![self.command@] + texts(self.args@).take(index as int),
            decreases self.args.len() - index,
        {
            push_text(&mut argv, self.args[index].as_str());
            index += 1;
        }
        assert forall|i: int| 0 <= i < texts(argv@).len() implies nul_free(
            #[trigger] texts(argv@)[i],
        ) by {
            if i > 0 {
                assert(texts(argv@)[i] == self@.args[i - 1]);
            }
        }
        argv
    }
}

/// The marker's name holds no NUL.
pub proof fn lemma_marker_name_nul_free()
    ensures
        nul_free(marker_name()),
{
    reveal_strlit(".old_root");
    lemma_nul_free_by_chars(marker_name());
}

} // verus!
