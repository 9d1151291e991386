//! Names of container images.

use vstd::prelude::*;
use vstd::string::*;
use vstd::std_specs::convert::FromSpecImpl;
use crate::buildah_error::BuildahError;
use crate::buildah_error::ErrorView;
use crate::executor::Invocation;
use crate::executor::Outcome;
use crate::executor::ProcessOutput;
use crate::parsing::interpret;
use crate::parsing::interpreted;

verus! {

/// The name of the empty image, from which a container is built up from
/// nothing.
pub const SCRATCH: &'static str = "scratch";

/// The text of an optional string.
pub open spec fn text_of(s: Option<&str>) -> Option<Seq<char>> {
    match s {
        Some(s) => Some(s@),
        None => None,
    }
}

/// The reference that names an image: `host/name:tag`, `host/name`,
/// `name:tag` or `name`, by which of the host and the tag are there.
pub open spec fn image_reference(
    hostname: Option<Seq<char>>,
    name: Seq<char>,
    tag: Option<Seq<char>>,
) -> Seq<char> {
    match (hostname, tag) {
        (Some(registry), Some(tag)) => registry + seq!['/'] + name + seq![':'] + tag,
        (Some(registry), None) => registry + seq!['/'] + name,
        (None, Some(tag)) => name + seq![':'] + tag,
        (None, None) => name,
    }
}

/// The reference is made of the three components alone and has exactly one
/// of four forms, by which of the host and the tag are there.
pub proof fn lemma_reference_has_one_form(
    hostname: Option<Seq<char>>,
    name: Seq<char>,
    tag: Option<Seq<char>>,
)
    ensures
        hostname is Some && tag is Some ==> image_reference(hostname, name, tag) == hostname->0
            + seq!['/'] + name + seq![':'] + tag->0,
        hostname is Some && tag is None ==> image_reference(hostname, name, tag) == hostname->0
            + seq!['/'] + name,
        hostname is None && tag is Some ==> image_reference(hostname, name, tag) == name
            + seq![':'] + tag->0,
        hostname is None && tag is None ==> image_reference(hostname, name, tag) == name,
        image_reference(hostname, name, tag).len() == name.len() + (match hostname {
            Some(registry) => registry.len() + 1,
            None => 0,
        }) + (match tag {
            Some(tag) => tag.len() + 1,
            None => 0,
        }),
{
}

/// The invocation that pushes the image named `reference`.
pub open spec fn push_invocation(reference: Seq<char>) -> Seq<Seq<char>> {
    seq!["push"@, reference]
}

/// A reference to a container image, held in the form in which the tool
/// takes it.
#[derive(Debug)]
pub struct Image(String);

impl Clone for Image {
    fn clone(&self) -> (r: Self)
        ensures
            r@ == self@,
    {
        Image(self.0.clone())
    }
}

impl View for Image {
    type V = Seq<char>;

    closed spec fn view(&self) -> Seq<char> {
        self.0@
    }
}

impl Image {
    /// Create an image from its components.
    pub fn new(hostname: Option<&str>, name: &str, tag: Option<&str>) -> (r: Image)
        ensures
            r@ == image_reference(text_of(hostname), name@, text_of(tag)),
    {
        proof {
            reveal_strlit("/");
            reveal_strlit(":");
        }
        let mut reference = String::new();
        if let Some(registry) = hostname {
            reference.append(registry);
            reference.append("/");
        }
        reference.append(name);
        if let Some(tag) = tag {
            reference.append(":");
            reference.append(tag);
        }
        assert(reference@ =~= image_reference(text_of(hostname), name@, text_of(tag)));
        Image(reference)
    }

    /// The reference as text.
    pub fn to_string(&self) -> (r: String)
        ensures
            r@ == self@,
    {
        self.0.clone()
    }

    /// The reference as text, borrowed.
    pub fn as_str(&self) -> (r: &str)
        ensures
            r@ == self@,
    {
        self.0.as_str()
    }

    /// Push an image, manifest list or image index from local storage to
    /// elsewhere: the invocation `push <image>`. Its outcome goes to
    /// [`Image::pushed`].
    pub fn push(&self) -> (r: Invocation)
        ensures
            r@ == push_invocation(self@),
    {
        Invocation::new("push").arg(self.as_str())
    }

    /// The result of a push. Failures are read as for every other
    /// operation, through [`interpret`]; a push that succeeded hands back
    /// the whole output of the tool.
    pub fn pushed(outcome: Outcome) -> (r: Result<ProcessOutput, BuildahError>)
        ensures
            match outcome {
                Ok(output) => match interpreted(output@) {
                    Ok(_) => r matches Ok(o) && o@ == output@,
                    Err(error) => r matches Err(e) && e@ == error,
                },
                Err(error) => r matches Err(e) && e@ == ErrorView::IoError(error),
            },
    {
        match outcome {
            Ok(output) => {
                let kept = output.clone();
                match interpret(output) {
                    Ok(_) => Ok(kept),
                    Err(error) => Err(error),
                }
            },
            Err(error) => Err(BuildahError::from(error)),
        }
    }
}

impl From<String> for Image {
    /// Takes `string` as a reference without looking at it.
    fn from(string: String) -> (r: Self)
        ensures
            r@ == string@,
    {
        Image(string)
    }
}

impl FromSpecImpl<String> for Image {
    open spec fn obeys_from_spec() -> bool {
        true
    }

    closed spec fn from_spec(string: String) -> Self {
        Image(string)
    }
}

impl<'a> From<&'a str> for Image {
    /// Takes `string` as a reference without looking at it.
    fn from(string: &'a str) -> (r: Self)
        ensures
            r@ == string@,
    {
        Image(string.to_owned())
    }
}

/// A contract cannot make a `String` of a `&str`, so there is no image that
/// `from_spec` could name. What `from` gives is stated on `from` itself.
impl<'a> FromSpecImpl<&'a str> for Image {
    open spec fn obeys_from_spec() -> bool {
        false
    }

    closed spec fn from_spec(string: &'a str) -> Self {
        arbitrary()
    }
}

} // verus!
