//! Mounts of a working container's root filesystem on the host.

use vstd::prelude::*;
use vstd::string::*;
use vstd::utf8::*;
use crate::buildah_error::BuildahError;
use crate::buildah_error::ErrorView;
use crate::executor::Invocation;
use crate::executor::Outcome;
use crate::executor::ProcessOutput;
use crate::parsing::interpret_outcome;
use crate::parsing::interpreted_outcome;
use crate::parsing::is_whitespace;
use crate::parsing::lemma_trim_end_is_longest_clean_prefix;
use crate::parsing::trim_end;

verus! {

/// Where a mount stands in its life. There is no way back from
/// `Unmounted`.
#[derive(Debug, Clone, Copy, PartialEq, Eq, Structural)]
pub enum MountState {
    Mounted,
    Unmounted,
}

/// A [`Mount`] as contracts read it.
pub struct MountView {
    /// Name of the container whose root filesystem is mounted.
    pub container_name: Seq<char>,
    /// Where on the host the filesystem is visible.
    pub host_path: Seq<char>,
    pub state: MountState,
}

/// The invocation that mounts the root filesystem of `container`.
pub open spec fn mount_invocation(container: Seq<char>) -> Seq<Seq<char>> {
    seq!["mount"@, container]
}

/// The invocation that takes the mount of `container` away again.
pub open spec fn umount_invocation(container: Seq<char>) -> Seq<Seq<char>> {
    seq!["umount"@, container]
}

/// Whether `path` starts at the root of the filesystem.
pub open spec fn is_absolute(path: Seq<char>) -> bool {
    path.len() > 0 && path[0] == '/'
}

/// The mount of `container` that `outcome` stands for: mounted at the path
/// that the tool printed, or the error that came instead.
pub open spec fn mount_of(container: Seq<char>, outcome: Outcome) -> Result<MountView, ErrorView> {
    match interpreted_outcome(outcome) {
        Ok(path) => Ok(
            MountView { container_name: container, host_path: path, state: MountState::Mounted },
        ),
        Err(error) => Err(error),
    }
}

/// The invocation that a teardown in state `mount` asks for, if any.
pub open spec fn unmounting(mount: MountView) -> Option<Seq<Seq<char>>> {
    match mount.state {
        MountState::Mounted => Some(umount_invocation(mount.container_name)),
        MountState::Unmounted => None,
    }
}

/// The state that a teardown leaves `mount` in.
pub open spec fn unmounted(mount: MountView) -> MountView {
    MountView { state: MountState::Unmounted, ..mount }
}

/// Trimming keeps an absolute path absolute: the `/` in front is no
/// whitespace, so it is never cut.
pub proof fn lemma_trimmed_path_stays_absolute(text: Seq<char>)
    requires
        is_absolute(text),
    ensures
        is_absolute(trim_end(text)),
{
    lemma_trim_end_is_longest_clean_prefix(text);
    assert(!is_whitespace(text[0]));
}

/// A mount made for a container reports the path that the tool printed:
/// where the tool succeeds and prints an absolute path, the mount stands,
/// names the container it was made for, and its path is that path, absolute
/// and without the line terminator.
pub proof fn lemma_mount_is_where_the_tool_says(container: Seq<char>, output: ProcessOutput)
    requires
        output.success,
        valid_utf8(output.stdout@),
        is_absolute(decode_utf8(output.stdout@)),
    ensures
        mount_of(container, Ok(output)) matches Ok(mount) && is_absolute(mount.host_path)
            && mount.host_path == trim_end(decode_utf8(output.stdout@)) && mount.container_name
            == container && mount.state == MountState::Mounted,
{
    lemma_trimmed_path_stays_absolute(decode_utf8(output.stdout@));
}

/// `Unmounted` is final: a mount asks for one `umount` at most. After a
/// teardown it asks for nothing, and another teardown changes nothing.
pub proof fn lemma_unmounted_is_final(mount: MountView)
    ensures
        unmounted(mount).state == MountState::Unmounted,
        unmounted(mount).container_name == mount.container_name,
        unmounting(unmounted(mount)) is None,
        unmounted(unmounted(mount)) == unmounted(mount),
{
}

/// A result as contracts read it: the view of the mount, or of the error.
pub open spec fn mount_view(r: Result<Mount, BuildahError>) -> Result<MountView, ErrorView> {
    match r {
        Ok(mount) => Ok(mount@),
        Err(error) => Err(error@),
    }
}

/// Instance of a Buildah mount. It refers to its container by name only and
/// must be torn down before that container is.
#[derive(Debug)]
pub struct Mount {
    container_name: String,
    host_path: String,
    mounted: bool,
}

impl View for Mount {
    type V = MountView;

    closed spec fn view(&self) -> MountView {
        MountView {
            container_name: self.container_name@,
            host_path: self.host_path@,
            state: if self.mounted {
                MountState::Mounted
            } else {
                MountState::Unmounted
            },
        }
    }
}

impl Mount {
    /// The invocation `mount <container_name>`, whose outcome makes a
    /// mount through [`Mount::new`].
    pub fn invocation(container_name: &str) -> (r: Invocation)
        ensures
            r@ == mount_invocation(container_name@),
    {
        Invocation::new("mount").arg(container_name)
    }

    /// Mount a working container's root filesystem: given the outcome of
    /// [`Mount::invocation`], the line that the tool printed is the place
    /// of the mount on the host. Every error is handed on, so that a caller
    /// without the right to mount can react to it.
    pub fn new(container_name: &str, outcome: Outcome) -> (r: Result<Mount, BuildahError>)
        ensures
            mount_view(r) == mount_of(container_name@, outcome),
    {
        match interpret_outcome(outcome) {
            Ok(path) => Ok(
                Mount { container_name: container_name.to_owned(), host_path: path, mounted: true },
            ),
            Err(error) => Err(error),
        }
    }

    /// Whether the mount has not been torn down yet.
    pub fn is_mounted(&self) -> (r: bool)
        ensures
            r == (self@.state == MountState::Mounted),
    {
        self.mounted
    }

    /// Name of the container that the mount belongs to.
    pub fn container_name(&self) -> (r: &str)
        ensures
            r@ == self@.container_name,
    {
        self.container_name.as_str()
    }

    /// Where on the host the container's root filesystem is visible. The
    /// path means something only while the mount stands.
    pub fn host_path(&self) -> (r: &str)
        requires
            self@.state == MountState::Mounted,
        ensures
            r@ == self@.host_path,
    {
        self.host_path.as_str()
    }

    /// Unmount the root file system on the working container: the first
    /// call gives the invocation `umount <container_name>` and leaves the
    /// mount `Unmounted`; any later call gives nothing and changes nothing.
    /// The outcome of the invocation goes to
    /// [`teardown_report`](crate::parsing::teardown_report).
    pub fn teardown(&mut self) -> (r: Option<Invocation>)
        ensures
            final(self)@ == unmounted(old(self)@),
            match unmounting(old(self)@) {
                Some(invocation) => r matches Some(i) && i@ == invocation,
                None => r is None,
            },
    {
        if self.mounted {
            self.mounted = false;
            Some(Invocation::new("umount").arg(self.container_name.as_str()))
        } else {
            None
        }
    }
}

} // verus!
