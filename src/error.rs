use vstd::prelude::*;

verus! {

/// Why an operation was refused. Every refused operation leaves all accounts
/// as they were.
#[derive(Clone, Copy, Debug, PartialEq, Eq, Structural)]
pub enum ErrorCode {
    /// Withdraw was signed by someone other than the escrow's owner.
    NotTheOwner,
    /// The escrow account holds no record yet.
    AccountNotInitialized,
    /// Initialize found a record already at the escrow address.
    AccountAlreadyInitialized,
    /// The escrow account does not sit at the address derived for its owner.
    ConstraintSeeds,
    /// A token account holds another mint than the one named.
    ConstraintTokenMint,
    /// A token account has another authority than the one required.
    ConstraintTokenOwner,
    /// A wallet cannot pay the native currency asked of it.
    InsufficientLamports,
    /// A token account cannot pay the tokens asked of it.
    InsufficientFunds,
    /// A sum or a product does not fit in 64 bits.
    ArithmeticOverflow,
    /// A difference would be negative.
    ArithmeticUnderflow,
    /// No bump between 1 and 255 derives an address off the curve.
    NoViableBump,
}

} // verus!
