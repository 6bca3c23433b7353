use vstd::prelude::*;
use crate::error::Error;

verus! {

/// A TLS handshake that has not finished: it still owns the stream it runs
/// on and lends it out.
pub trait MidHandshake<S> {
    fn get_ref(&self) -> &S;

    fn get_mut(&mut self) -> &mut S;
}

/// How one attempt to advance a handshake ended.
pub enum HandshakeOutcome<S, H> {
    /// The handshake finished.
    Connected(S),
    /// The transport would block; the handshake goes on later.
    WouldBlock(H),
    /// The handshake failed for good.
    Failed(Error),
}

pub enum Inner<S, H> {
    Connected(S),
    Handshaking(Option<H>),
}

/// A stream that is either ready or still in its TLS handshake.
pub struct TcpStream<S, H>(pub Inner<S, H>);

impl<S, H: MidHandshake<S>> TcpStream<S, H> {
    /// A stream whose handshake is done.
    pub fn connected(stream: S) -> (r: Self)
        ensures
            r.0 == Inner::<S, H>::Connected(stream),
    {
        TcpStream(Inner::Connected(stream))
    }

    /// A stream whose handshake is still running.
    pub fn handshaking(handshaker: H) -> (r: Self)
        ensures
            r.0 == Inner::<S, H>::Handshaking(Some(handshaker)),
    {
        TcpStream(Inner::Handshaking(Some(handshaker)))
    }

    /// Whether a handshaker is at hand, so that `inner` and `inner_mut`
    /// have a stream to lend.
    pub open spec fn has_stream(&self) -> bool {
        match self.0 {
            Inner::Connected(_) => true,
            Inner::Handshaking(h) => h is Some,
        }
    }

    /// Whether `inner` and `inner_mut` have a stream to lend.
    pub fn can_lend(&self) -> (r: bool)
        ensures
            r == self.has_stream(),
    {
        match &self.0 {
            Inner::Connected(_) => true,
            Inner::Handshaking(handshaker) => handshaker.is_some(),
        }
    }

    pub fn inner(&self) -> (r: &S)
        requires
            self.has_stream(),
        ensures
            self.0 is Connected ==> *r == self.0->Connected_0,
    {
        match &self.0 {
            Inner::Connected(stream) => stream,
            Inner::Handshaking(handshaker) => handshaker.as_ref().unwrap().get_ref(),
        }
    }

    pub fn inner_mut(&mut self) -> (r: &mut S)
        requires
            old(self).has_stream(),
        ensures
            old(self).0 is Connected ==> *r == old(self).0->Connected_0 && final(self).0
                == Inner::<S, H>::Connected(*final(r)),
            old(self).0 is Handshaking ==> final(self).0 is Handshaking,
    {
        match &mut self.0 {
            Inner::Connected(stream) => stream,
            Inner::Handshaking(handshaker) => handshaker.as_mut().unwrap().get_mut(),
        }
    }

    pub fn is_handshaking(&self) -> (r: bool)
        ensures
            r == (self.0 is Handshaking),
    {
        match &self.0 {
            Inner::Connected(_) => false,
            Inner::Handshaking(_) => true,
        }
    }

    /// Hands out the handshaker so that the transport can advance it. The
    /// stream stays in its handshake, without a handshaker, until
    /// `handshake` is told the outcome.
    pub fn take_handshaker(&mut self) -> (r: Option<H>)
        ensures
            old(self).0 is Connected ==> r is None && *final(self) == *old(self),
            old(self).0 is Handshaking ==> r == old(self).0->Handshaking_0 && final(self).0
                == Inner::<S, H>::Handshaking(None),
    {
        let mut taken: Option<H> = None;
        match &mut self.0 {
            Inner::Connected(_) => {},
            Inner::Handshaking(handshaker) => {
                std::mem::swap(handshaker, &mut taken);
            },
        }
        taken
    }

    /// Records how an attempt to advance the handshake ended. A stream
    /// that is ready stays as it is.
    pub fn handshake(&mut self, outcome: HandshakeOutcome<S, H>) -> (r: Result<(), Error>)
        ensures
            old(self).0 is Connected ==> r is Ok && *final(self) == *old(self),
            old(self).0 is Handshaking ==> match outcome {
                HandshakeOutcome::Connected(stream) => r is Ok && final(self).0 == Inner::<
                    S,
                    H,
                >::Connected(stream),
                HandshakeOutcome::WouldBlock(handshaker) => r is Ok && final(self).0 == Inner::<
                    S,
                    H,
                >::Handshaking(Some(handshaker)),
                HandshakeOutcome::Failed(error) => r == Err::<(), Error>(error) && final(self).0
                    == Inner::<S, H>::Handshaking(None),
            },
    {
        if self.is_handshaking() {
            match outcome {
                HandshakeOutcome::Connected(stream) => {
                    self.0 = Inner::Connected(stream);
                    Ok(())
                },
                HandshakeOutcome::WouldBlock(handshaker) => {
                    self.0 = Inner::Handshaking(Some(handshaker));
                    Ok(())
                },
                HandshakeOutcome::Failed(error) => {
                    self.0 = Inner::Handshaking(None);
                    Err(error)
                },
            }
        } else {
            Ok(())
        }
    }
}

} // verus!
