//! Strings of the host's, held until they are handed back.
//!
//! What the host returns from a call stays the host's memory. A managed value
//! borrows such a string together with the pointer it arrived at and the
//! feature that frees it. Releasing the value yields the one call that hands
//! the string back; after that the value reads as nothing and yields no
//! further call, however often it is released.
use crate::encoding::text_of;
use crate::error::{outcome, PathError};
use crate::feature::{FreeCall, FreePath};
use crate::platform::{as_path, path_text};
use std::path::Path;
use vstd::prelude::*;
use vstd::string::StringSliceAdditionalSpecFns;
use vstd::utf8::{decode_utf8, encode_utf8, valid_utf8};

verus! {

/// A string that the host returned: the pointer it returned, and the bytes
/// that lie there before the terminating zero byte.
#[derive(Debug)]
pub struct HostString<'a, P> {
    pub pointer: P,
    pub bytes: &'a [u8],
}

impl<'a, P: Copy> Clone for HostString<'a, P> {
    fn clone(&self) -> (copy: Self)
        ensures
            copy == *self,
    {
        *self
    }
}

impl<'a, P: Copy> Copy for HostString<'a, P> {

}

/// What a managed value is: the text it holds, where the host keeps it, the
/// feature that frees it, and whether it has been handed back.
pub struct Lease<H, R, P> {
    pub text: Seq<char>,
    pub pointer: P,
    pub free_path: FreePath<H, R>,
    pub released: bool,
}

impl<H, R, P> Lease<H, R, P> {
    /// What becomes of the host's answer to a call. A null pointer (`None`)
    /// and bytes that are not UTF-8 are both the host's fault: no lease is
    /// made of either, so nothing is ever handed back for them. Any other
    /// answer is held, not yet released, with its decoded text.
    pub open spec fn of(reply: Option<HostString<P>>, free_path: FreePath<H, R>) -> Result<
        Self,
        PathError,
    > {
        match reply {
            None => Err(PathError::HostError),
            Some(string) => if valid_utf8(string.bytes@) {
                Ok(
                    Lease {
                        text: decode_utf8(string.bytes@),
                        pointer: string.pointer,
                        free_path,
                        released: false,
                    },
                )
            } else {
                Err(PathError::HostError)
            },
        }
    }

    /// The call that frees this lease's string.
    pub open spec fn free_call(self) -> FreeCall<H, R, P> {
        FreeCall {
            handle: self.free_path.handle,
            function: self.free_path.free_path,
            pointer: self.pointer,
        }
    }

    /// Releasing: the lease afterwards, and the call to be made, if any.
    pub open spec fn release(self) -> (Self, Option<FreeCall<H, R, P>>) {
        if self.released {
            (self, None)
        } else {
            (Lease { released: true, ..self }, Some(self.free_call()))
        }
    }

    /// The text that may still be read.
    pub open spec fn read(self) -> Option<Seq<char>> {
        if self.released {
            None
        } else {
            Some(self.text)
        }
    }

    /// The calls that `times` releases in a row give rise to, in order.
    pub open spec fn releases(self, times: nat) -> Seq<FreeCall<H, R, P>>
        decreases times,
    {
        if times == 0 {
            Seq::empty()
        } else {
            let (next, call) = self.release();
            let first = match call {
                Some(c) => seq![c],
                None => Seq::empty(),
            };
            first + next.releases((times - 1) as nat)
        }
    }
}

/// A null pointer from the host never becomes a managed value.
pub proof fn null_reply_is_refused<H, R, P>(free_path: FreePath<H, R>)
    ensures
        Lease::<H, R, P>::of(None, free_path) == Err::<Lease<H, R, P>, PathError>(
            PathError::HostError,
        ),
{
}

/// The host's answer becomes a managed value exactly if it is a string of
/// valid UTF-8. The value then holds the decoded text, is not released, and
/// its release frees the very pointer that the host answered with, through
/// the feature it was bound to.
pub proof fn valid_reply_is_held<H, R, P>(string: HostString<P>, free_path: FreePath<H, R>)
    ensures
        Lease::of(Some(string), free_path) is Ok <==> valid_utf8(string.bytes@),
        Lease::of(Some(string), free_path) matches Ok(lease) ==> {
            &&& lease.read() == Some(decode_utf8(string.bytes@))
            &&& lease.release().1 == Some(
                FreeCall {
                    handle: free_path.handle,
                    function: free_path.free_path,
                    pointer: string.pointer,
                },
            )
        },
        !valid_utf8(string.bytes@) ==> Lease::of(Some(string), free_path) == Err::<
            Lease<H, R, P>,
            PathError,
        >(PathError::HostError),
{
}

/// Whatever text the host encodes as UTF-8 is the text that the managed
/// value holds.
pub proof fn reply_text_is_kept<H, R, P>(
    string: HostString<P>,
    free_path: FreePath<H, R>,
    text: Seq<char>,
)
    requires
        string.bytes@ == encode_utf8(text),
    ensures
        Lease::of(Some(string), free_path) matches Ok(lease) && lease.read() == Some(text),
{
    vstd::utf8::encode_utf8_valid_utf8(text);
    vstd::utf8::encode_utf8_decode_utf8(text);
}

/// A lease that has been released yields no call, however often it is
/// released again, and cannot be read.
pub proof fn released_lease_is_spent<H, R, P>(lease: Lease<H, R, P>, times: nat)
    requires
        lease.released,
    ensures
        lease.releases(times) == Seq::<FreeCall<H, R, P>>::empty(),
        lease.read() is None,
        lease.release().0 == lease,
    decreases times,
{
    if times > 0 {
        released_lease_is_spent(lease, (times - 1) as nat);
        assert(lease.releases(times) =~= Seq::<FreeCall<H, R, P>>::empty());
    }
}

/// However often a lease is released, its string is freed exactly once: the
/// first release yields the one call, with the lease's own pointer, and all
/// later ones yield none.
pub proof fn lease_is_released_once<H, R, P>(lease: Lease<H, R, P>, times: nat)
    requires
        !lease.released,
        times >= 1,
    ensures
        lease.releases(times) == seq![lease.free_call()],
        lease.release().0.released,
        lease.release().0.read() is None,
{
    released_lease_is_spent(lease.release().0, (times - 1) as nat);
    assert(lease.releases(times) =~= seq![lease.free_call()]);
}

/// Leases that share a releaser are released apart: however often each is
/// released, each string is freed once, through the one releaser and with
/// its own pointer.
pub proof fn shared_releaser_frees_each_string_once<H, R, P>(
    first: Lease<H, R, P>,
    second: Lease<H, R, P>,
    first_times: nat,
    second_times: nat,
)
    requires
        first.free_path == second.free_path,
        !first.released,
        !second.released,
        first_times >= 1,
        second_times >= 1,
    ensures
        first.releases(first_times) + second.releases(second_times) == seq![
            FreeCall {
                handle: first.free_path.handle,
                function: first.free_path.free_path,
                pointer: first.pointer,
            },
            FreeCall {
                handle: first.free_path.handle,
                function: first.free_path.free_path,
                pointer: second.pointer,
            },
        ],
{
    lease_is_released_once(first, first_times);
    lease_is_released_once(second, second_times);
    assert(seq![first.free_call()] + seq![second.free_call()] =~= seq![
        first.free_call(),
        second.free_call(),
    ]);
}

/// Releasing changes nothing of a lease but that it is released: its text,
/// its pointer and its releaser stay.
pub proof fn release_keeps_the_string<H, R, P>(lease: Lease<H, R, P>)
    ensures
        lease.release().0 == (Lease { released: true, ..lease }),
{
}

/// Validates the host's answer: its pointer and its text, or `HostError`.
fn decode<'a, P>(reply: Option<HostString<'a, P>>) -> (decoded: Result<(P, &'a str), PathError>)
    ensures
        match decoded {
            Ok((pointer, text)) => reply matches Some(string) && valid_utf8(string.bytes@)
                && pointer == string.pointer && text@ == decode_utf8(string.bytes@),
            Err(error) => error == PathError::HostError && !(reply matches Some(string)
                && valid_utf8(string.bytes@)),
        },
{
    match reply {
        None => Err(PathError::HostError),
        Some(string) => match core::str::from_utf8(string.bytes) {
            Ok(text) => {
                proof {
                    vstd::utf8::encode_utf8_decode_utf8(text@);
                }
                Ok((string.pointer, text))
            },
            Err(_) => Err(PathError::HostError),
        },
    }
}

/// An absolute path of the host's, released when it is no longer used.
#[derive(Debug)]
pub struct ManagedPath<'a, H, R, P> {
    text: &'a str,
    pointer: P,
    free_path: FreePath<H, R>,
    released: bool,
}

impl<'a, H, R, P> View for ManagedPath<'a, H, R, P> {
    type V = Lease<H, R, P>;

    closed spec fn view(&self) -> Lease<H, R, P> {
        Lease {
            text: self.text@,
            pointer: self.pointer,
            free_path: self.free_path,
            released: self.released,
        }
    }
}

impl<'a, H: Copy, R: Copy, P: Copy> ManagedPath<'a, H, R, P> {
    /// Takes charge of the path that the host answered with. No value is
    /// made of a null pointer or of bytes that are not UTF-8.
    pub fn from_reply(reply: Option<HostString<'a, P>>, free_path: FreePath<H, R>) -> (managed:
        Result<Self, PathError>)
        ensures
            outcome(managed) == Lease::of(reply, free_path),
    {
        match decode(reply) {
            Ok((pointer, text)) => Ok(ManagedPath { text, pointer, free_path, released: false }),
            Err(error) => Err(error),
        }
    }

    /// The path, as long as it has not been released.
    pub fn as_path(&self) -> (path: Option<&'a Path>)
        ensures
            path is Some <==> self@.read() is Some,
            path matches Some(p) ==> path_text(p) == self@.read(),
    {
        if self.released {
            None
        } else {
            Some(as_path(self.text))
        }
    }

    /// Whether the path has been handed back to the host.
    pub fn is_released(&self) -> (released: bool)
        ensures
            released == self@.released,
    {
        self.released
    }

    /// Gives the path up. The first release yields the call that frees it;
    /// every later one yields nothing and changes nothing.
    pub fn release(&mut self) -> (call: Option<FreeCall<H, R, P>>)
        ensures
            (final(self)@, call) == old(self)@.release(),
    {
        if self.released {
            None
        } else {
            self.released = true;
            Some(self.free_path.free_path(self.pointer))
        }
    }
}

/// An abstract path of the host's, released when it is no longer used.
#[derive(Debug)]
pub struct ManagedStr<'a, H, R, P> {
    text: &'a str,
    pointer: P,
    free_path: FreePath<H, R>,
    released: bool,
}

impl<'a, H, R, P> View for ManagedStr<'a, H, R, P> {
    type V = Lease<H, R, P>;

    closed spec fn view(&self) -> Lease<H, R, P> {
        Lease {
            text: self.text@,
            pointer: self.pointer,
            free_path: self.free_path,
            released: self.released,
        }
    }
}

impl<'a, H: Copy, R: Copy, P: Copy> ManagedStr<'a, H, R, P> {
    /// Takes charge of the string that the host answered with. No value is
    /// made of a null pointer or of bytes that are not UTF-8.
    pub fn from_reply(reply: Option<HostString<'a, P>>, free_path: FreePath<H, R>) -> (managed:
        Result<Self, PathError>)
        ensures
            outcome(managed) == Lease::of(reply, free_path),
    {
        match decode(reply) {
            Ok((pointer, text)) => Ok(ManagedStr { text, pointer, free_path, released: false }),
            Err(error) => Err(error),
        }
    }

    /// The string, as long as it has not been released.
    pub fn as_str(&self) -> (text: Option<&'a str>)
        ensures
            text_of(text) == self@.read(),
    {
        if self.released {
            None
        } else {
            Some(self.text)
        }
    }

    /// Whether the string has been handed back to the host.
    pub fn is_released(&self) -> (released: bool)
        ensures
            released == self@.released,
    {
        self.released
    }

    /// Gives the string up. The first release yields the call that frees it;
    /// every later one yields nothing and changes nothing.
    pub fn release(&mut self) -> (call: Option<FreeCall<H, R, P>>)
        ensures
            (final(self)@, call) == old(self)@.release(),
    {
        if self.released {
            None
        } else {
            self.released = true;
            Some(self.free_path.free_path(self.pointer))
        }
    }
}

} // verus!
