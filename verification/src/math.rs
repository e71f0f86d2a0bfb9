//! A binding to the compiled auxiliary contract: its interface declaration,
//! its creation and runtime bytecode, and handles to deployed instances.
//! The interface declares no functions and no constructor, so a deployment
//! takes no constructor arguments.

use vstd::prelude::*;



verus! {

/// The contract's interface declaration: it declares nothing, so the
/// encoded form is an empty list.
pub open spec fn math_abi() -> Seq<u8> {
    seq![91u8, 93u8]
}

/// The creation bytecode the build emitted for the contract.
pub open spec fn math_bytecode() -> Seq<u8> {
    seq![
        96, 85, 96, 35, 96, 11, 130, 130, 130, 57, 128, 81, 96, 0, 26, 96, 115, 20, 96, 22,
        87, 254, 91, 48, 96, 0, 82, 96, 115, 129, 83, 130, 129, 243, 254, 115, 0, 0, 0, 0, 0,
        0, 0, 0, 0, 0, 0, 0, 0, 0, 0, 0, 0, 0, 0, 0, 48, 20, 96, 128, 96, 64, 82, 96, 0, 128,
        253, 254, 162, 101, 98, 122, 122, 114, 49, 88, 32, 237, 188, 69, 234, 70, 128, 207,
        94, 21, 57, 21, 52, 65, 74, 180, 90, 160, 133, 68, 201, 58, 162, 185, 188, 103, 107,
        114, 85, 119, 133, 64, 216, 100, 115, 111, 108, 99, 67, 0, 5, 16, 0, 50,
    ]
}

/// The runtime bytecode the contract leaves on the ledger once deployed.
pub open spec fn math_deployed_bytecode() -> Seq<u8> {
    seq![
        115, 0, 0, 0, 0, 0, 0, 0, 0, 0, 0, 0, 0, 0, 0, 0, 0, 0, 0, 0, 0, 48, 20, 96, 128, 96,
        64, 82, 96, 0, 128, 253, 254, 162, 101, 98, 122, 122, 114, 49, 88, 32, 237, 188, 69,
        234, 70, 128, 207, 94, 21, 57, 21, 52, 65, 74, 180, 90, 160, 133, 68, 201, 58, 162,
        185, 188, 103, 107, 114, 85, 119, 133, 64, 216, 100, 115, 111, 108, 99, 67, 0, 5, 16,
        0, 50,
    ]
}

/// The creation bytecode, as bytes.
pub fn math_bytecode_vec() -> (r: Vec<u8>)
    ensures
        r@ == math_bytecode(),
{
    let r = vec![
        96, 85, 96, 35, 96, 11, 130, 130, 130, 57, 128, 81, 96, 0, 26, 96, 115, 20, 96, 22,
        87, 254, 91, 48, 96, 0, 82, 96, 115, 129, 83, 130, 129, 243, 254, 115, 0, 0, 0, 0, 0,
        0, 0, 0, 0, 0, 0, 0, 0, 0, 0, 0, 0, 0, 0, 0, 48, 20, 96, 128, 96, 64, 82, 96, 0, 128,
        253, 254, 162, 101, 98, 122, 122, 114, 49, 88, 32, 237, 188, 69, 234, 70, 128, 207,
        94, 21, 57, 21, 52, 65, 74, 180, 90, 160, 133, 68, 201, 58, 162, 185, 188, 103, 107,
        114, 85, 119, 133, 64, 216, 100, 115, 111, 108, 99, 67, 0, 5, 16, 0, 50,
    ];
    proof {
        assert(r@ =~= math_bytecode());
    }
    r
}

/// The runtime bytecode, as bytes.
pub fn math_deployed_bytecode_vec() -> (r: Vec<u8>)
    ensures
        r@ == math_deployed_bytecode(),
{
    let r = vec![
        115, 0, 0, 0, 0, 0, 0, 0, 0, 0, 0, 0, 0, 0, 0, 0, 0, 0, 0, 0, 0, 48, 20, 96, 128, 96,
        64, 82, 96, 0, 128, 253, 254, 162, 101, 98, 122, 122, 114, 49, 88, 32, 237, 188, 69,
        234, 70, 128, 207, 94, 21, 57, 21, 52, 65, 74, 180, 90, 160, 133, 68, 201, 58, 162,
        185, 188, 103, 107, 114, 85, 119, 133, 64, 216, 100, 115, 111, 108, 99, 67, 0, 5, 16,
        0, 50,
    ];
    proof {
        assert(r@ =~= math_deployed_bytecode());
    }
    r
}

/// What can go wrong preparing a deployment.
#[derive(Clone, Copy, PartialEq, Eq, Structural, Debug)]
pub enum BindingError {
    /// Constructor arguments were passed, but the interface declares no
    /// constructor.
    UnexpectedConstructorArguments,
}

/// A handle to one deployed instance of the contract, by its address.
#[derive(Clone, Copy, PartialEq, Eq, Structural, Debug)]
pub struct Math {
    /// The account the instance lives at.
    pub address: u64,
}

/// A prepared deployment: the code the ledger will be asked to create.
#[derive(Debug)]
pub struct MathDeployer {
    /// The creation bytecode to submit.
    pub code: Vec<u8>,
}

impl Math {
    /// A handle to the instance at `address`.
    pub fn new(address: u64) -> (r: Math)
        ensures
            r.address == address,
    {
        Math { address }
    }

    /// Prepare a deployment of the contract. The interface declares no
    /// constructor, so this succeeds exactly when no constructor arguments
    /// are passed; the deployer then carries the creation bytecode.
    pub fn deploy(constructor_args: Vec<u8>) -> (r: Result<MathDeployer, BindingError>)
        ensures
            (r is Ok <==> constructor_args@.len() == 0),
            (r matches Ok(d) ==> d.code@ == math_bytecode()),
            (r is Err ==> r == Err::<MathDeployer, BindingError>(
                BindingError::UnexpectedConstructorArguments,
            )),
    {
        if constructor_args.len() > 0 {
            return Err(BindingError::UnexpectedConstructorArguments);
        }
        Ok(MathDeployer { code: math_bytecode_vec() })
    }
}

} // verus!
