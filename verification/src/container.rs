//! Working containers.

use vstd::prelude::*;
use vstd::string::*;
use vstd::utf8::*;
use crate::buildah_error::BuildahError;
use crate::buildah_error::ErrorView;
use crate::decimal::decimal;
use crate::decimal::decimal_string;
use crate::executor::Invocation;
use crate::executor::Outcome;
use crate::executor::ProcessOutput;
use crate::image::Image;
use crate::mount::mount_invocation;
use crate::mount::mount_of;
use crate::mount::mount_view;
use crate::mount::Mount;
use crate::parsing::interpret_outcome;
use crate::parsing::interpreted_outcome;
use crate::parsing::is_whitespace;
use crate::parsing::lemma_line_is_empty_iff_blank;
use crate::parsing::trim_end;

verus! {

/// Where a container stands in its life once it has been created. There is
/// no way back from `Removed`.
#[derive(Debug, Clone, Copy, PartialEq, Eq, Structural)]
pub enum ContainerState {
    Live,
    Removed,
}

/// A [`Container`] as contracts read it.
pub struct ContainerView {
    /// The name by which the tool knows the container.
    pub name: Seq<char>,
    pub state: ContainerState,
}

/// The invocation that makes a working container from `image`.
pub open spec fn from_invocation(image: Seq<char>) -> Seq<Seq<char>> {
    seq!["from"@, image]
}

/// The option `--key=value`.
pub open spec fn setting(key: Seq<char>, value: Seq<char>) -> Seq<char> {
    seq!['-', '-'] + key + seq!['='] + value
}

/// The invocation that sets `key` to `value` in the configuration of
/// `container`.
pub open spec fn config_invocation(
    container: Seq<char>,
    key: Seq<char>,
    value: Seq<char>,
) -> Seq<Seq<char>> {
    seq!["config"@, setting(key, value), container]
}

/// The invocation that copies `src` to `dest` inside `container`.
pub open spec fn copy_invocation(
    container: Seq<char>,
    src: Seq<char>,
    dest: Seq<char>,
) -> Seq<Seq<char>> {
    seq!["copy"@, container, src, dest]
}

/// The invocation that runs the command `args` inside `container`.
pub open spec fn run_invocation(container: Seq<char>, args: Seq<Seq<char>>) -> Seq<Seq<char>> {
    seq!["run"@, container, "--"@] + args
}

/// The invocation that commits `container` as `image`.
pub open spec fn commit_invocation(container: Seq<char>, image: Seq<char>) -> Seq<Seq<char>> {
    seq!["commit"@, container, image]
}

/// The invocation that removes `container`.
pub open spec fn rm_invocation(container: Seq<char>) -> Seq<Seq<char>> {
    seq!["rm"@, container]
}

/// The texts of a sequence of string slices, in order.
pub open spec fn slice_texts(strings: Seq<&str>) -> Seq<Seq<char>> {
    strings.map_values(|s: &str| s@)
}

/// The container that `outcome` stands for: live under the name that the
/// tool printed, or the error that came instead.
pub open spec fn container_of(outcome: Outcome) -> Result<ContainerView, ErrorView> {
    match interpreted_outcome(outcome) {
        Ok(name) => Ok(ContainerView { name, state: ContainerState::Live }),
        Err(error) => Err(error),
    }
}

/// The invocation that a teardown in state `container` asks for, if any.
pub open spec fn removing(container: ContainerView) -> Option<Seq<Seq<char>>> {
    match container.state {
        ContainerState::Live => Some(rm_invocation(container.name)),
        ContainerState::Removed => None,
    }
}

/// The state that a teardown leaves `container` in.
pub open spec fn removed(container: ContainerView) -> ContainerView {
    ContainerView { state: ContainerState::Removed, ..container }
}

/// Creation enters `Live` with a name that is not empty: where the tool
/// succeeds and prints text that holds anything but whitespace, the outcome
/// stands for a live container, named by that text without the whitespace
/// at its end.
pub proof fn lemma_created_container_is_live(output: ProcessOutput)
    requires
        output.success,
        valid_utf8(output.stdout@),
        exists|i: int|
            0 <= i < decode_utf8(output.stdout@).len() && !is_whitespace(
                #[trigger] decode_utf8(output.stdout@)[i],
            ),
    ensures
        container_of(Ok(output)) matches Ok(container) && container.state == ContainerState::Live
            && container.name.len() > 0 && container.name == trim_end(
            decode_utf8(output.stdout@),
        ),
{
    lemma_line_is_empty_iff_blank(decode_utf8(output.stdout@));
}

/// `Removed` is final: a container asks for one `rm` at most. After a
/// teardown it is no longer live, so that no operation admits it; it asks
/// for nothing more, and another teardown changes nothing.
pub proof fn lemma_removed_is_final(container: ContainerView)
    ensures
        removed(container).state == ContainerState::Removed,
        removed(container).name == container.name,
        removing(removed(container)) is None,
        removed(removed(container)) == removed(container),
{
}

/// A result as contracts read it: the view of the container, or of the error.
pub open spec fn container_view(r: Result<Container, BuildahError>) -> Result<
    ContainerView,
    ErrorView,
> {
    match r {
        Ok(container) => Ok(container@),
        Err(error) => Err(error@),
    }
}

/// Instance of a Buildah container: the handle of one working container,
/// owned by whoever holds this value. Operations take the handle by `&mut`,
/// as there is one handle for a container and one operation on it at a
/// time; none of them changes it.
#[derive(Debug)]
pub struct Container {
    name: String,
    live: bool,
}

impl View for Container {
    type V = ContainerView;

    closed spec fn view(&self) -> ContainerView {
        ContainerView {
            name: self.name@,
            state: if self.live {
                ContainerState::Live
            } else {
                ContainerState::Removed
            },
        }
    }
}

impl Container {
    /// Creates a new working container, either from scratch or using a
    /// specified image as a starting point: the invocation `from <image>`.
    /// Its outcome makes the container through [`Container::created`].
    pub fn try_from(image: Image) -> (r: Invocation)
        ensures
            r@ == from_invocation(image@),
    {
        Invocation::new("from").arg(image.as_str())
    }

    /// The container that the outcome of [`Container::try_from`] stands
    /// for. The line that the tool printed is taken as the container's
    /// name; an image that the tool rejects, and a tool that cannot be
    /// started, give the error.
    pub fn created(outcome: Outcome) -> (r: Result<Container, BuildahError>)
        ensures
            container_view(r) == container_of(outcome),
    {
        match interpret_outcome(outcome) {
            Ok(name) => Ok(Container { name, live: true }),
            Err(error) => Err(error),
        }
    }

    /// The name by which the tool knows the container.
    pub fn name(&self) -> (r: &str)
        ensures
            r@ == self@.name,
    {
        self.name.as_str()
    }

    /// Whether the container has not been torn down yet.
    pub fn is_live(&self) -> (r: bool)
        ensures
            r == (self@.state == ContainerState::Live),
    {
        self.live
    }

    /// Typed form of `config`: the author of the image.
    pub fn config_author(&mut self, name: &str) -> (r: Invocation)
        requires
            old(self)@.state == ContainerState::Live,
        ensures
            *final(self) == *old(self),
            r@ == config_invocation(old(self)@.name, "author"@, name@),
    {
        self.config("author", name)
    }

    /// Typed form of `config`: the directory in which commands start.
    pub fn config_workingdir(&mut self, directory: &str) -> (r: Invocation)
        requires
            old(self)@.state == ContainerState::Live,
        ensures
            *final(self) == *old(self),
            r@ == config_invocation(old(self)@.name, "workingdir"@, directory@),
    {
        self.config("workingdir", directory)
    }

    /// Typed form of `config`: the command that a container of the image
    /// runs by default.
    pub fn config_cmd(&mut self, command: &str) -> (r: Invocation)
        requires
            old(self)@.state == ContainerState::Live,
        ensures
            *final(self) == *old(self),
            r@ == config_invocation(old(self)@.name, "cmd"@, command@),
    {
        self.config("cmd", command)
    }

    /// Typed form of `config`: a port that a container of the image
    /// listens on. The port is written in decimal under the key `port`.
    pub fn config_port(&mut self, port: u16) -> (r: Invocation)
        requires
            old(self)@.state == ContainerState::Live,
        ensures
            *final(self) == *old(self),
            r@ == config_invocation(old(self)@.name, "port"@, decimal(port as nat)),
    {
        let value = decimal_string(port);
        self.config("port", value.as_str())
    }

    /// Update image configuration settings: the invocation
    /// `config --key=value <name>`. Its outcome goes to
    /// [`acknowledge`](crate::parsing::acknowledge).
    pub fn config(&mut self, key: &str, value: &str) -> (r: Invocation)
        requires
            old(self)@.state == ContainerState::Live,
        ensures
            *final(self) == *old(self),
            r@ == config_invocation(old(self)@.name, key@, value@),
    {
        proof {
            reveal_strlit("--");
            reveal_strlit("=");
        }
        let mut option = String::new();
        option.append("--");
        option.append(key);
        option.append("=");
        option.append(value);
        assert(option@ =~= setting(key@, value@));
        Invocation::new("config").arg(option.as_str()).arg(self.name.as_str())
    }

    /// Copies the contents of a file, URL, or directory into the
    /// container's working directory: the invocation
    /// `copy <name> <src> <dest>`. Neither path is looked at here. Its
    /// outcome goes to [`acknowledge`](crate::parsing::acknowledge).
    pub fn copy(&mut self, src: &str, dest: &str) -> (r: Invocation)
        requires
            old(self)@.state == ContainerState::Live,
        ensures
            *final(self) == *old(self),
            r@ == copy_invocation(old(self)@.name, src@, dest@),
    {
        Invocation::new("copy").arg(self.name.as_str()).arg(src).arg(dest)
    }

    /// Run a command inside of the container: the invocation
    /// `run <name> -- <args...>`. Its outcome goes to
    /// [`whole_output`](crate::parsing::whole_output), as what the command
    /// printed is the caller's to read.
    pub fn run(&mut self, args: &[&str]) -> (r: Invocation)
        requires
            old(self)@.state == ContainerState::Live,
        ensures
            *final(self) == *old(self),
            r@ == run_invocation(old(self)@.name, slice_texts(args@)),
    {
        let mut invocation = Invocation::new("run").arg(self.name.as_str()).arg("--");
        let mut i: usize = 0;
        while i < args.len()
            invariant
                i <= args.len(),
                invocation@ == run_invocation(self@.name, slice_texts(args@.subrange(0, i as int))),
            decreases args.len() - i,
        {
            invocation = invocation.arg(args[i]);
            assert(slice_texts(args@.subrange(0, i + 1)) =~= slice_texts(
                args@.subrange(0, i as int),
            ).push(args[i as int]@));
            i = i + 1;
        }
        assert(args@.subrange(0, i as int) =~= args@);
        invocation
    }

    /// Mount working container's root filesystem: the invocation
    /// `mount <name>`. Unprivileged users must run with `buildah unshare`.
    /// Its outcome makes the mount through [`Container::mounted`].
    pub fn mount(&mut self) -> (r: Invocation)
        requires
            old(self)@.state == ContainerState::Live,
        ensures
            *final(self) == *old(self),
            r@ == mount_invocation(old(self)@.name),
    {
        Mount::invocation(self.name.as_str())
    }

    /// The mount of this container that the outcome of
    /// [`Container::mount`] stands for, or the error that came instead.
    pub fn mounted(&self, outcome: Outcome) -> (r: Result<Mount, BuildahError>)
        requires
            self@.state == ContainerState::Live,
        ensures
            mount_view(r) == mount_of(self@.name, outcome),
    {
        Mount::new(self.name.as_str(), outcome)
    }

    /// Create an image from a working container: the invocation
    /// `commit <name> <image>`. The container stays as it is. Its outcome
    /// goes to [`acknowledge`](crate::parsing::acknowledge).
    pub fn commit(&mut self, image: Image) -> (r: Invocation)
        requires
            old(self)@.state == ContainerState::Live,
        ensures
            *final(self) == *old(self),
            r@ == commit_invocation(old(self)@.name, image@),
    {
        Invocation::new("commit").arg(self.name.as_str()).arg(image.as_str())
    }

    /// Removes the working container: the first call gives the invocation
    /// `rm <name>` and leaves the container `Removed`; any later call gives
    /// nothing and changes nothing. The outcome of the invocation goes to
    /// [`teardown_report`](crate::parsing::teardown_report).
    pub fn teardown(&mut self) -> (r: Option<Invocation>)
        ensures
            final(self)@ == removed(old(self)@),
            match removing(old(self)@) {
                Some(invocation) => r matches Some(i) && i@ == invocation,
                None => r is None,
            },
    {
        if self.live {
            self.live = false;
            Some(Invocation::new("rm").arg(self.name.as_str()))
        } else {
            None
        }
    }
}

} // verus!
