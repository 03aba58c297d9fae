//! The plugin's one door to the host's path features.
use crate::encoding::text_of;
use crate::error::{outcome, PathError};
use crate::feature::{FreePath, HostCall, HostCallView, MakePath, MapPath};
use crate::managed::{HostString, Lease, ManagedPath, ManagedStr};
use crate::platform::{is_absolute, path_is_absolute, path_text, to_str};
use std::path::Path;
use vstd::prelude::*;

verus! {

/// The path features of one plugin instance: a maker and a releaser, which
/// every host must supply, and a mapper, which a host may leave out.
///
/// Every exchange with the host is two steps here. The first, named after
/// the operation, checks the plugin's input and yields the call to be made.
/// The second, [`Self::managed_path`] or [`Self::managed_str`], takes the
/// host's answer and yields the managed value, bound to this manager's
/// releaser.
#[derive(Debug)]
pub struct PathManager<H, F, R> {
    pub make: MakePath<H, F>,
    pub map: Option<MapPath<H, F>>,
    pub free: FreePath<H, R>,
}

impl<H: Copy, F: Copy, R: Copy> PathManager<H, F, R> {
    /// A manager for a host that cannot map paths.
    pub fn new(make: MakePath<H, F>, free: FreePath<H, R>) -> (manager: Self)
        ensures
            manager == (PathManager { make, map: None, free }),
    {
        PathManager { make, map: None, free }
    }

    /// A manager for a host that can map paths.
    pub fn new_with_map(make: MakePath<H, F>, map: MapPath<H, F>, free: FreePath<H, R>) -> (manager:
        Self)
        ensures
            manager == (PathManager { make, map: Some(map), free }),
    {
        PathManager { make, map: Some(map), free }
    }

    /// The call that makes a relative path absolute: the maker's.
    pub open spec fn relative_to_absolute(self, absolute: bool, text: Option<Seq<char>>) -> Result<
        HostCallView<H, F>,
        PathError,
    > {
        self.make.relative_to_absolute(absolute, text)
    }

    /// The call that maps an absolute path to an abstract one: the mapper's.
    /// Without a mapper there is none, whatever the path.
    pub open spec fn absolute_to_abstract(self, absolute: bool, text: Option<Seq<char>>) -> Result<
        HostCallView<H, F>,
        PathError,
    > {
        match self.map {
            None => Err(PathError::FeatureMissing),
            Some(map) => map.absolute_to_abstract(absolute, text),
        }
    }

    /// The call that maps an abstract path to an absolute one: the mapper's.
    /// Without a mapper there is none, whatever the path.
    pub open spec fn abstract_to_absolute(self, abstract_path: Seq<char>) -> Result<
        HostCallView<H, F>,
        PathError,
    > {
        match self.map {
            None => Err(PathError::FeatureMissing),
            Some(map) => Ok(map.abstract_to_absolute(abstract_path)),
        }
    }

    /// [`Self::relative_to_absolute_path`] for a path that has been taken
    /// apart already: whether it is absolute, and its text if it has one.
    pub fn relative_to_absolute_call(&self, absolute: bool, text: Option<&str>) -> (call: Result<
        HostCall<H, F>,
        PathError,
    >)
        ensures
            outcome(call) == self.relative_to_absolute(absolute, text_of(text)),
    {
        self.make.relative_to_absolute_call(absolute, text)
    }

    /// [`Self::absolute_to_abstract_path`] for a path that has been taken
    /// apart already: whether it is absolute, and its text if it has one.
    pub fn absolute_to_abstract_call(&self, absolute: bool, text: Option<&str>) -> (call: Result<
        HostCall<H, F>,
        PathError,
    >)
        ensures
            outcome(call) == self.absolute_to_abstract(absolute, text_of(text)),
    {
        match &self.map {
            None => Err(PathError::FeatureMissing),
            Some(map) => map.absolute_to_abstract_call(absolute, text),
        }
    }

    /// First step of getting an absolute path for a relative one: the call
    /// to make, or the reason why the host is not to be called.
    pub fn relative_to_absolute_path(&self, relative_path: &Path) -> (call: Result<
        HostCall<H, F>,
        PathError,
    >)
        ensures
            outcome(call) == self.relative_to_absolute(
                path_is_absolute(relative_path),
                path_text(relative_path),
            ),
    {
        self.relative_to_absolute_call(is_absolute(relative_path), to_str(relative_path))
    }

    /// First step of getting an abstract path for an absolute one: the call
    /// to make, or the reason why the host is not to be called.
    pub fn absolute_to_abstract_path(&self, path: &Path) -> (call: Result<
        HostCall<H, F>,
        PathError,
    >)
        ensures
            outcome(call) == self.absolute_to_abstract(path_is_absolute(path), path_text(path)),
    {
        self.absolute_to_abstract_call(is_absolute(path), to_str(path))
    }

    /// First step of getting the absolute path behind an abstract one: the
    /// call to make, or the reason why the host is not to be called.
    pub fn abstract_to_absolute_path(&self, path: &str) -> (call: Result<
        HostCall<H, F>,
        PathError,
    >)
        ensures
            outcome(call) == self.abstract_to_absolute(path@),
    {
        match &self.map {
            None => Err(PathError::FeatureMissing),
            Some(map) => Ok(map.abstract_to_absolute_path(path)),
        }
    }

    /// Second step of an operation that yields a path: wraps what the host
    /// answered, to be released through this manager's releaser.
    pub fn managed_path<'a, P: Copy>(&self, reply: Option<HostString<'a, P>>) -> (managed: Result<
        ManagedPath<'a, H, R, P>,
        PathError,
    >)
        ensures
            outcome(managed) == Lease::of(reply, self.free),
    {
        ManagedPath::from_reply(reply, self.free)
    }

    /// Second step of the operation that yields an abstract path: wraps what
    /// the host answered, to be released through this manager's releaser.
    pub fn managed_str<'a, P: Copy>(&self, reply: Option<HostString<'a, P>>) -> (managed: Result<
        ManagedStr<'a, H, R, P>,
        PathError,
    >)
        ensures
            outcome(managed) == Lease::of(reply, self.free),
    {
        ManagedStr::from_reply(reply, self.free)
    }
}

/// A manager that was given no mapper refuses both mapper operations with
/// `FeatureMissing`, for every path and before any check of the path: no
/// call to the host comes of them.
pub proof fn missing_mapper_refuses_every_path<H: Copy, F: Copy, R: Copy>(
    make: MakePath<H, F>,
    free: FreePath<H, R>,
    absolute: bool,
    text: Option<Seq<char>>,
    abstract_path: Seq<char>,
)
    ensures
        (PathManager { make, map: None, free }).absolute_to_abstract(absolute, text) == Err::<
            HostCallView<H, F>,
            PathError,
        >(PathError::FeatureMissing),
        (PathManager { make, map: None, free }).abstract_to_absolute(abstract_path) == Err::<
            HostCallView<H, F>,
            PathError,
        >(PathError::FeatureMissing),
{
}

/// A manager that was given a mapper answers as the mapper does, and in
/// every case it makes paths as its maker does.
pub proof fn manager_answers_as_its_features<H: Copy, F: Copy, R: Copy>(
    manager: PathManager<H, F, R>,
    absolute: bool,
    text: Option<Seq<char>>,
    abstract_path: Seq<char>,
)
    ensures
        manager.relative_to_absolute(absolute, text) == manager.make.relative_to_absolute(
            absolute,
            text,
        ),
        manager.map matches Some(map) ==> {
            &&& manager.absolute_to_abstract(absolute, text) == map.absolute_to_abstract(
                absolute,
                text,
            )
            &&& manager.abstract_to_absolute(abstract_path) == Ok::<HostCallView<H, F>, PathError>(
                map.abstract_to_absolute(abstract_path),
            )
        },
{
}

} // verus!
