use vstd::prelude::*;

verus! {

/// The outcome of a dispatched call: success, or the reason it failed.
pub type DispatchResult = Result<(), &'static str>;

/// The header of a block: the number the block claims to have.
pub struct Header<BlockNumber> {
    pub block_number: BlockNumber,
}

/// A call together with the account on whose behalf it is made.
pub struct Extrinsic<Caller, Call> {
    pub caller: Caller,
    pub call: Call,
}

/// An ordered batch of extrinsics under a header.
pub struct Block<Header, Extrinsic> {
    pub header: Header,
    pub extrinsics: Vec<Extrinsic>,
}

/// Routing of a call, made on behalf of a caller, to the state transition it
/// names.
pub trait Dispatch: Sized {
    type Caller;
    type Call;

    /// The state is well formed.
    spec fn inv(&self) -> bool;

    /// `after` and `r` are what dispatching `call` on behalf of `caller`
    /// makes of `before`.
    spec fn dispatched(before: Self, caller: Self::Caller, call: Self::Call, after: Self, r: DispatchResult) -> bool;

    /// Performs `call` on behalf of `caller`.
    fn dispatch(&mut self, caller: Self::Caller, call: Self::Call) -> (r: DispatchResult)
        requires
            old(self).inv(),
        ensures
            final(self).inv(),
            Self::dispatched(*old(self), caller, call, *final(self), r),
    ;
}

} // verus!
