//! Marshaling of process invocation arguments.
//!
//! The engine takes its command arguments as a contiguous vector of
//! null-terminated byte strings.  The first invocation argument after the
//! program name is the command verb; everything after it is the command's
//! argument vector, passed through verbatim and in order.  An argument that
//! holds an interior null byte cannot be carried across the boundary and is
//! rejected here as a configuration error rather than crashing later.

use vstd::prelude::*;

verus! {

/// An owned null-terminated byte string, ready to cross the engine boundary.
///
/// The view is the full byte sequence including the single terminating null.
#[derive(Debug)]
pub struct CArg {
    bytes: Vec<u8>,
}

impl View for CArg {
    type V = Seq<u8>;

    closed spec fn view(&self) -> Seq<u8> {
        self.bytes@
    }
}

impl CArg {
    /// A well-formed argument ends in a null byte and holds no other one.
    pub closed spec fn wf(&self) -> bool {
        &&& self.bytes@.len() >= 1
        &&& self.bytes@.last() == 0u8
        &&& forall|i: int| 0 <= i < self.bytes@.len() - 1 ==> self.bytes@[i] != 0u8
    }

    /// Appends the terminator to `payload`; refuses payloads that already
    /// hold a null byte, since the result could not round-trip through a
    /// C-style string.
    pub fn from_payload(payload: Vec<u8>) -> (r: Option<CArg>)
        ensures
            r is Some <==> !payload@.contains(0u8),
            r matches Some(c) ==> c.wf() && c@ == payload@.push(0u8),
    {
        let n = payload.len();
        let mut i: usize = 0;
        while i < n
            invariant
                n == payload@.len(),
                0 <= i <= n,
                forall|j: int| 0 <= j < i ==> payload@[j] != 0u8,
            decreases n - i,
        {
            if payload[i] == 0 {
                assert(payload@.contains(0u8));
                return None;
            }
            i += 1;
        }
        assert(!payload@.contains(0u8));
        let mut bytes = payload;
        bytes.push(0);
        Some(CArg { bytes })
    }

    /// The bytes, terminator included.
    pub fn bytes(&self) -> (r: &Vec<u8>)
        ensures
            r@ == self@,
    {
        &self.bytes
    }

    /// Hands the bytes out, terminator included.
    pub fn into_bytes(self) -> (r: Vec<u8>)
        ensures
            r@ == self@,
    {
        self.bytes
    }
}

/// The views of a sequence of arguments, in order.
pub open spec fn views_of(s: Seq<CArg>) -> Seq<Seq<u8>> {
    s.map_values(|c: CArg| c@)
}

/// Why an invocation could not be marshaled.
#[derive(Clone, Copy, Debug, PartialEq, Eq)]
pub enum ArgError {
    /// Fewer than two invocation arguments: there is no command verb.
    MissingCommand,
    /// The invocation argument at `index` holds an interior null byte.
    EmbeddedNul { index: usize },
}

/// One command invocation, marshaled: the command verb and its argument
/// vector, each null-terminated.
#[derive(Debug)]
pub struct Invocation {
    pub command: CArg,
    pub args: Vec<CArg>,
}

impl Invocation {
    pub open spec fn wf(&self) -> bool {
        &&& self.command.wf()
        &&& forall|i: int| 0 <= i < self.args@.len() ==> self.args@[i].wf()
    }
}

/// Copies a byte vector.
fn copy_bytes(v: &Vec<u8>) -> (r: Vec<u8>)
    ensures
        r@ == v@,
{
    let n = v.len();
    let mut r: Vec<u8> = Vec::new();
    let mut i: usize = 0;
    while i < n
        invariant
            n == v@.len(),
            0 <= i <= n,
            r@ == v@.take(i as int),
        decreases n - i,
    {
        r.push(v[i]);
        assert(v@.take(i as int).push(v@[i as int]) =~= v@.take(i + 1));
        i += 1;
    }
    assert(v@.take(n as int) =~= v@);
    r
}

/// Marshals a full invocation vector: `argv[0]` is the program name and is
/// ignored, `argv[1]` is the command verb, `argv[2..]` is the command's
/// argument vector, order preserved.  Succeeds exactly when a command verb is
/// present and no marshaled argument holds an interior null byte.
pub fn build_invocation(argv: &Vec<Vec<u8>>) -> (r: Result<Invocation, ArgError>)
    ensures
        r is Ok <==> (argv@.len() >= 2 && forall|i: int|
            1 <= i < argv@.len() ==> !argv@[i]@.contains(0u8)),
        r matches Ok(inv) ==> {
            &&& inv.wf()
            &&& inv.command@ == argv@[1]@.push(0u8)
            &&& inv.args@.len() == argv@.len() - 2
            &&& forall|i: int| 0 <= i < inv.args@.len() ==> inv.args@[i]@ == argv@[i + 2]@.push(
                0u8,
            )
        },
        r == Err::<Invocation, ArgError>(ArgError::MissingCommand) <==> argv@.len() < 2,
        r matches Err(ArgError::EmbeddedNul { index }) ==> {
            &&& 1 <= index < argv@.len()
            &&& argv@[index as int]@.contains(0u8)
            &&& forall|j: int| 1 <= j < index ==> !argv@[j]@.contains(0u8)
        },
{
    let n = argv.len();
    if n < 2 {
        return Err(ArgError::MissingCommand);
    }
    let command = match CArg::from_payload(copy_bytes(&argv[1])) {
        Some(c) => c,
        None => {
            return Err(ArgError::EmbeddedNul { index: 1 });
        },
    };
    let mut args: Vec<CArg> = Vec::new();
    let mut i: usize = 2;
    while i < n
        invariant
            n == argv@.len(),
            n >= 2,
            2 <= i <= n,
            command.wf(),
            command@ == argv@[1]@.push(0u8),
            !argv@[1]@.contains(0u8),
            args@.len() == i - 2,
            forall|k: int| 0 <= k < args@.len() ==> args@[k].wf() && args@[k]@ == argv@[k + 2]@.push(
                0u8,
            ),
            forall|j: int| 1 <= j < i ==> !argv@[j]@.contains(0u8),
        decreases n - i,
    {
        match CArg::from_payload(copy_bytes(&argv[i])) {
            Some(c) => {
                args.push(c);
            },
            None => {
                return Err(ArgError::EmbeddedNul { index: i });
            },
        }
        i += 1;
    }
    Ok(Invocation { command, args })
}

} // verus!
