//! The three capabilities that a host may supply, and the calls they stand for.
//!
//! A host offers each capability as a table: an opaque handle and one or two
//! entry points, any of which may be absent. A descriptor is such a table
//! after validation: it exists only if the table and all of its entry points
//! do, so nothing has to be tested again when a call is made.
//!
//! A descriptor does not call the host. It says which call is to be made:
//! [`HostCall`] for the entry points that take a string and answer with one,
//! [`FreeCall`] for the one that takes a string back.
use crate::encoding::{c_string, c_string_bytes, text_of};
use crate::error::{outcome, PathError};
use crate::platform::{is_absolute, path_is_absolute, path_text, to_str};
use std::path::Path;
use vstd::prelude::*;

verus! {

/// The table behind the "make path" feature, as the host supplies it.
#[derive(Debug)]
pub struct MakePathTable<H, F> {
    /// Opaque host data.
    pub handle: H,
    /// Returns a path that the plugin may use to create a new file.
    pub path: Option<F>,
}

/// The table behind the "map path" feature, as the host supplies it.
#[derive(Debug)]
pub struct MapPathTable<H, F> {
    /// Opaque host data.
    pub handle: H,
    /// Maps an absolute path to an abstract path for use in plugin state.
    pub abstract_path: Option<F>,
    /// Maps an abstract path from plugin state to an absolute path.
    pub absolute_path: Option<F>,
}

/// The table behind the "free path" feature, as the host supplies it.
#[derive(Debug)]
pub struct FreePathTable<H, R> {
    /// Opaque host data.
    pub handle: H,
    /// Frees a path that one of the other two features returned.
    pub free_path: Option<R>,
}

/// A call of a host entry point that takes a string and answers with one.
#[derive(Debug)]
pub struct HostCall<H, F> {
    /// The handle that the host expects as first argument.
    pub handle: H,
    /// The entry point to call.
    pub function: F,
    /// The string argument, ending with its zero byte.
    pub path: Vec<u8>,
}

/// What a [`HostCall`] holds, with the buffer as a sequence of bytes.
pub struct HostCallView<H, F> {
    pub handle: H,
    pub function: F,
    pub path: Seq<u8>,
}

impl<H, F> View for HostCall<H, F> {
    type V = HostCallView<H, F>;

    open spec fn view(&self) -> HostCallView<H, F> {
        HostCallView { handle: self.handle, function: self.function, path: self.path@ }
    }
}

/// A call of the host entry point that takes back a string of the host's.
#[derive(Debug)]
pub struct FreeCall<H, R, P> {
    /// The handle that the host expects as first argument.
    pub handle: H,
    /// The entry point to call.
    pub function: R,
    /// Where the string lies that is handed back.
    pub pointer: P,
}

impl<H: Copy, R: Copy, P: Copy> Clone for FreeCall<H, R, P> {
    fn clone(&self) -> (copy: Self)
        ensures
            copy == *self,
    {
        *self
    }
}

impl<H: Copy, R: Copy, P: Copy> Copy for FreeCall<H, R, P> {

}

/// A host feature to make absolute paths.
#[derive(Debug)]
pub struct MakePath<H, F> {
    /// Opaque host data, handed back with every call.
    pub handle: H,
    /// The entry point that makes a path.
    pub function: F,
}

impl<H: Copy, F: Copy> Clone for MakePath<H, F> {
    fn clone(&self) -> (copy: Self)
        ensures
            copy == *self,
    {
        *self
    }
}

impl<H: Copy, F: Copy> Copy for MakePath<H, F> {

}

impl<H: Copy, F: Copy> MakePath<H, F> {
    /// Validates the host's table. The feature is there if and only if the
    /// table is and holds its entry point.
    pub fn from_table(table: Option<&MakePathTable<H, F>>) -> (feature: Option<Self>)
        ensures
            feature == match table {
                Some(t) => match t.path {
                    Some(function) => Some(MakePath { handle: t.handle, function }),
                    None => None,
                },
                None => None,
            },
    {
        match table {
            Some(t) => match t.path {
                Some(function) => Some(MakePath { handle: t.handle, function }),
                None => None,
            },
            None => None,
        }
    }

    /// The call that asks the host for the absolute path of a relative one.
    ///
    /// `absolute` says whether the path is absolute, `text` is its text if it
    /// is valid Unicode. An absolute path is refused first, then one without
    /// text. Otherwise the host is to get this feature's handle and the
    /// text's UTF-8 bytes with a zero byte after them.
    pub open spec fn relative_to_absolute(self, absolute: bool, text: Option<Seq<char>>) -> Result<
        HostCallView<H, F>,
        PathError,
    > {
        if absolute {
            Err(PathError::PathNotRelative)
        } else {
            match text {
                None => Err(PathError::PathNotUTF8),
                Some(t) => Ok(
                    HostCallView { handle: self.handle, function: self.function, path: c_string(t) },
                ),
            }
        }
    }

    /// [`Self::relative_to_absolute_path`] for a path that has been taken
    /// apart already.
    pub fn relative_to_absolute_call(&self, absolute: bool, text: Option<&str>) -> (call: Result<
        HostCall<H, F>,
        PathError,
    >)
        ensures
            outcome(call) == self.relative_to_absolute(absolute, text_of(text)),
    {
        if absolute {
            return Err(PathError::PathNotRelative);
        }
        match text {
            None => Err(PathError::PathNotUTF8),
            Some(t) => Ok(
                HostCall { handle: self.handle, function: self.function, path: c_string_bytes(t) },
            ),
        }
    }

    /// Checks a relative path and puts together the call that makes it
    /// absolute. An `Err` means that the host is not to be called.
    pub fn relative_to_absolute_path(&self, relative_path: &Path) -> (call: Result<
        HostCall<H, F>,
        PathError,
    >)
        ensures
            outcome(call) == self.relative_to_absolute(
                path_is_absolute(relative_path),
                path_text(relative_path),
            ),
    {
        self.relative_to_absolute_call(is_absolute(relative_path), to_str(relative_path))
    }
}

/// A host feature to save and restore files.
#[derive(Debug)]
pub struct MapPath<H, F> {
    /// Opaque host data, handed back with every call.
    pub handle: H,
    /// The entry point that maps an absolute path to an abstract one.
    pub abstract_path: F,
    /// The entry point that maps an abstract path to an absolute one.
    pub absolute_path: F,
}

impl<H: Copy, F: Copy> Clone for MapPath<H, F> {
    fn clone(&self) -> (copy: Self)
        ensures
            copy == *self,
    {
        *self
    }
}

impl<H: Copy, F: Copy> Copy for MapPath<H, F> {

}

impl<H: Copy, F: Copy> MapPath<H, F> {
    /// Validates the host's table. The feature is there if and only if the
    /// table is and holds both of its entry points.
    pub fn from_table(table: Option<&MapPathTable<H, F>>) -> (feature: Option<Self>)
        ensures
            feature == match table {
                Some(t) => match (t.abstract_path, t.absolute_path) {
                    (Some(abstract_path), Some(absolute_path)) => Some(
                        MapPath { handle: t.handle, abstract_path, absolute_path },
                    ),
                    _ => None,
                },
                None => None,
            },
    {
        match table {
            Some(t) => match (t.abstract_path, t.absolute_path) {
                (Some(abstract_path), Some(absolute_path)) => Some(
                    MapPath { handle: t.handle, abstract_path, absolute_path },
                ),
                _ => None,
            },
            None => None,
        }
    }

    /// The call that asks the host for the abstract path of an absolute one.
    ///
    /// `absolute` says whether the path is absolute, `text` is its text if it
    /// is valid Unicode. A path that is not absolute is refused first, then
    /// one without text. Otherwise the host is to get this feature's handle
    /// and the text's UTF-8 bytes with a zero byte after them.
    pub open spec fn absolute_to_abstract(self, absolute: bool, text: Option<Seq<char>>) -> Result<
        HostCallView<H, F>,
        PathError,
    > {
        if !absolute {
            Err(PathError::PathNotAbsolute)
        } else {
            match text {
                None => Err(PathError::PathNotUTF8),
                Some(t) => Ok(
                    HostCallView {
                        handle: self.handle,
                        function: self.abstract_path,
                        path: c_string(t),
                    },
                ),
            }
        }
    }

    /// The call that asks the host for the absolute path behind an abstract
    /// one. Any string may be an abstract path: none is refused.
    pub open spec fn abstract_to_absolute(self, abstract_path: Seq<char>) -> HostCallView<H, F> {
        HostCallView {
            handle: self.handle,
            function: self.absolute_path,
            path: c_string(abstract_path),
        }
    }

    /// [`Self::absolute_to_abstract_path`] for a path that has been taken
    /// apart already.
    pub fn absolute_to_abstract_call(&self, absolute: bool, text: Option<&str>) -> (call: Result<
        HostCall<H, F>,
        PathError,
    >)
        ensures
            outcome(call) == self.absolute_to_abstract(absolute, text_of(text)),
    {
        if !absolute {
            return Err(PathError::PathNotAbsolute);
        }
        match text {
            None => Err(PathError::PathNotUTF8),
            Some(t) => Ok(
                HostCall {
                    handle: self.handle,
                    function: self.abstract_path,
                    path: c_string_bytes(t),
                },
            ),
        }
    }

    /// Checks an absolute path and puts together the call that maps it to an
    /// abstract one. An `Err` means that the host is not to be called.
    pub fn absolute_to_abstract_path(&self, path: &Path) -> (call: Result<
        HostCall<H, F>,
        PathError,
    >)
        ensures
            outcome(call) == self.absolute_to_abstract(path_is_absolute(path), path_text(path)),
    {
        self.absolute_to_abstract_call(is_absolute(path), to_str(path))
    }

    /// Puts together the call that maps an abstract path back to an absolute
    /// one.
    pub fn abstract_to_absolute_path(&self, path: &str) -> (call: HostCall<H, F>)
        ensures
            call@ == self.abstract_to_absolute(path@),
    {
        HostCall { handle: self.handle, function: self.absolute_path, path: c_string_bytes(path) }
    }
}

/// A host feature to give back a string that the host allocated.
#[derive(Debug)]
pub struct FreePath<H, R> {
    /// Opaque host data, handed back with every call.
    pub handle: H,
    /// The entry point that frees a string.
    pub free_path: R,
}

impl<H: Copy, R: Copy> Clone for FreePath<H, R> {
    fn clone(&self) -> (copy: Self)
        ensures
            copy == *self,
    {
        *self
    }
}

impl<H: Copy, R: Copy> Copy for FreePath<H, R> {

}

impl<H: Copy, R: Copy> FreePath<H, R> {
    /// Validates the host's table. The feature is there if and only if the
    /// table is and holds its entry point.
    pub fn from_table(table: Option<&FreePathTable<H, R>>) -> (feature: Option<Self>)
        ensures
            feature == match table {
                Some(t) => match t.free_path {
                    Some(free_path) => Some(FreePath { handle: t.handle, free_path }),
                    None => None,
                },
                None => None,
            },
    {
        match table {
            Some(t) => match t.free_path {
                Some(free_path) => Some(FreePath { handle: t.handle, free_path }),
                None => None,
            },
            None => None,
        }
    }

    /// The call that hands the string at `pointer` back to the host.
    pub fn free_path<P>(&self, pointer: P) -> (call: FreeCall<H, R, P>)
        ensures
            call == (FreeCall { handle: self.handle, function: self.free_path, pointer }),
    {
        FreeCall { handle: self.handle, function: self.free_path, pointer }
    }
}

/// The maker is asked for exactly the relative paths that have a text, and
/// is then handed its own handle and the path's buffer. Every other path is
/// refused with the error of the first check that it fails.
pub proof fn maker_forwards_relative_paths<H: Copy, F: Copy>(
    make: MakePath<H, F>,
    absolute: bool,
    text: Option<Seq<char>>,
)
    ensures
        make.relative_to_absolute(absolute, text) is Ok <==> !absolute && text is Some,
        make.relative_to_absolute(absolute, text) matches Ok(call) ==> call == (HostCallView {
            handle: make.handle,
            function: make.function,
            path: c_string(text->0),
        }),
        make.relative_to_absolute(absolute, text) matches Err(error) ==> error == (if absolute {
            PathError::PathNotRelative
        } else {
            PathError::PathNotUTF8
        }),
{
}

/// The mapper is asked for the abstract path of exactly the absolute paths
/// that have a text, and is then handed its own handle and the path's
/// buffer. Every other path is refused with the error of the first check
/// that it fails.
pub proof fn mapper_forwards_absolute_paths<H: Copy, F: Copy>(
    map: MapPath<H, F>,
    absolute: bool,
    text: Option<Seq<char>>,
)
    ensures
        map.absolute_to_abstract(absolute, text) is Ok <==> absolute && text is Some,
        map.absolute_to_abstract(absolute, text) matches Ok(call) ==> call == (HostCallView {
            handle: map.handle,
            function: map.abstract_path,
            path: c_string(text->0),
        }),
        map.absolute_to_abstract(absolute, text) matches Err(error) ==> error == (if !absolute {
            PathError::PathNotAbsolute
        } else {
            PathError::PathNotUTF8
        }),
{
}

/// No path is handed to both the maker and the mapper: what the one takes
/// the other refuses for its shape. A path with a text is taken by one of
/// the two.
pub proof fn maker_and_mapper_share_no_path<H: Copy, F: Copy>(
    make: MakePath<H, F>,
    map: MapPath<H, F>,
    absolute: bool,
    text: Option<Seq<char>>,
)
    ensures
        make.relative_to_absolute(absolute, text) is Ok ==> map.absolute_to_abstract(absolute, text)
            == Err::<HostCallView<H, F>, PathError>(PathError::PathNotAbsolute),
        map.absolute_to_abstract(absolute, text) is Ok ==> make.relative_to_absolute(absolute, text)
            == Err::<HostCallView<H, F>, PathError>(PathError::PathNotRelative),
        text is Some ==> (make.relative_to_absolute(absolute, text) is Ok
            || map.absolute_to_abstract(absolute, text) is Ok),
{
}

} // verus!
