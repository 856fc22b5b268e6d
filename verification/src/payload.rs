//! The payload of an event: bytes, and the content type that says how to
//! read them.

use vstd::prelude::*;
use vstd::std_specs::cmp::PartialEqSpecImpl;

verus! {

/// The data of an event together with its content type.
#[derive(Debug)]
pub struct Payload {
    pub content_type: String,
    pub data: Vec<u8>,
}

/// What a payload holds.
pub struct PayloadView {
    pub content_type: Seq<char>,
    pub data: Seq<u8>,
}

impl View for Payload {
    type V = PayloadView;

    open spec fn view(&self) -> PayloadView {
        PayloadView { content_type: self.content_type@, data: self.data@ }
    }
}

impl Clone for Payload {
    fn clone(&self) -> (r: Payload)
        ensures
            r@ == self@,
    {
        Payload { content_type: self.content_type.clone(), data: self.data.clone() }
    }
}

impl PartialEq for Payload {
    fn eq(&self, other: &Payload) -> (r: bool) {
        self.content_type == other.content_type && crate::text::bytes_eq(
            self.data.as_slice(),
            other.data.as_slice(),
        )
    }
}

impl PartialEqSpecImpl for Payload {
    open spec fn obeys_eq_spec() -> bool {
        true
    }

    open spec fn eq_spec(&self, other: &Payload) -> bool {
        self@ == other@
    }
}

/// What reading a payload gives: nothing where there is no payload, and
/// else the value or the reason why the data could not be read.
pub type PayloadResult<T, E> = Option<Result<T, E>>;

/// The result of reading a payload without its content type.
pub open spec fn without_content_type<T, E>(full: PayloadResult<(String, T), E>) -> PayloadResult<
    T,
    E,
> {
    match full {
        None => None,
        Some(Err(error)) => Some(Err(error)),
        Some(Ok((_, value))) => Some(Ok(value)),
    }
}

/// Something whose payload can be set from a value of type `T`.
pub trait PayloadWriter<T, E>: Sized + Clone {
    /// Writing `value` under `content_type` into `before` may leave `after`
    /// and return `r`.
    spec fn wrote(
        before: Self,
        content_type: Seq<char>,
        value: T,
        after: Self,
        r: Result<(), E>,
    ) -> bool;

    /// Sets the payload to the bytes of `value`, under the given content
    /// type, in place of the payload that was there.
    fn write_payload(&mut self, content_type: &str, value: T) -> (r: Result<(), E>)
        ensures
            Self::wrote(*old(self), content_type@, value, *final(self), r),
    ;

    /// Makes a copy with the payload set to the bytes of `value`.
    fn clone_with_new_payload(&self, content_type: &str, value: T) -> (r: Result<Self, E>)
        ensures
            exists|copy: Self, after: Self, w: Result<(), E>|
                cloned::<Self>(*self, copy) && #[trigger] Self::wrote(
                    copy,
                    content_type@,
                    value,
                    after,
                    w,
                ) && match w {
                    Ok(_) => r == Ok::<Self, E>(after),
                    Err(error) => r == Err::<Self, E>(error),
                },
    {
        let mut copy = self.clone();
        let ghost start = copy;
        let w = copy.write_payload(content_type, value);
        assert(Self::wrote(start, content_type@, value, copy, w));
        match w {
            Ok(_) => Ok(copy),
            Err(error) => Err(error),
        }
    }
}

/// Something whose payload can be read as a value of type `T`.
pub trait PayloadReader<T, E> {
    /// Reading the payload with its content type may return `r`.
    spec fn decoded(&self, r: PayloadResult<(String, T), E>) -> bool;

    /// Reads the payload: nothing where there is none, and else the value
    /// that the data holds, or the reason why it holds none.
    fn read_payload(&self) -> (r: PayloadResult<T, E>)
        ensures
            exists|full: PayloadResult<(String, T), E>| #[trigger]
                self.decoded(full) && r == without_content_type(full),
    {
        let full = self.read_content_type_and_payload();
        match full {
            None => None,
            Some(Err(error)) => Some(Err(error)),
            Some(Ok((_, value))) => Some(Ok(value)),
        }
    }

    /// Reads the payload together with its content type.
    fn read_content_type_and_payload(&self) -> (r: PayloadResult<(String, T), E>)
        ensures
            self.decoded(r),
    ;
}

/// Something whose payload can be replaced by what a function makes of it.
pub trait PayloadMapper<T, E, F: Fn(T) -> T>: Sized {
    /// Mapping the payload through `f` may return `r`.
    spec fn mapped(&self, f: F, r: Result<Self, E>) -> bool;

    /// Reads the payload, applies `f` to the value, and writes the result
    /// into a copy, under the content type that the payload had. Without
    /// a payload the copy is returned as it is; where the payload cannot
    /// be read, the error of the reading is returned.
    fn map_payload(&self, f: F) -> (r: Result<Self, E>)
        requires
            forall|value: T| call_requires(f, (value,)),
        ensures
            self.mapped(f, r),
    ;
}

impl<T, E, F: Fn(T) -> T, S: PayloadWriter<T, E> + PayloadReader<T, E>> PayloadMapper<T, E, F> for S {
    open spec fn mapped(&self, f: F, r: Result<S, E>) -> bool {
        exists|full: PayloadResult<(String, T), E>| #[trigger]
            self.decoded(full) && match full {
                None => r matches Ok(copy) && cloned::<S>(*self, copy),
                Some(Err(error)) => r == Err::<S, E>(error),
                Some(Ok((content_type, value))) => exists|
                    copy: S,
                    made: T,
                    after: S,
                    w: Result<(), E>,
                |
                    cloned::<S>(*self, copy) && call_ensures(f, (value,), made) && #[trigger] S::wrote(
                        copy,
                        content_type@,
                        made,
                        after,
                        w,
                    ) && match w {
                        Ok(_) => r == Ok::<S, E>(after),
                        Err(error) => r == Err::<S, E>(error),
                    },
            }
    }

    fn map_payload(&self, f: F) -> (r: Result<S, E>) {
        let full = self.read_content_type_and_payload();
        match full {
            None => {
                let copy = self.clone();
                let r = Ok(copy);
                assert(self.decoded(full));
                r
            },
            Some(Err(error)) => {
                assert(self.decoded(full));
                Err(error)
            },
            Some(Ok((content_type, value))) => {
                let mut copy = self.clone();
                let ghost start = copy;
                let made = f(value);
                let w = copy.write_payload(content_type.as_str(), made);
                assert(S::wrote(start, content_type@, made, copy, w));
                assert(self.decoded(full));
                match w {
                    Ok(_) => Ok(copy),
                    Err(error) => Err(error),
                }
            },
        }
    }
}

} // verus!
