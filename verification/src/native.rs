//! Native functions: the closed set of host-provided callables the VM
//! installs as globals. The interpreter owes them only call-protocol
//! fidelity; what each host call returns is the host's concern.

use vstd::prelude::*;
use vstd::string::StringSliceAdditionalSpecFns;

verus! {

/// The five natives.
#[derive(Debug, Clone, Copy, PartialEq, Eq, Structural)]
pub enum NativeFnType {
    Input,
    Print,
    Clock,
    ReadFile,
    WriteFile,
}

impl NativeFnType {
    /// All natives, in installation order.
    pub fn variants() -> (r: Vec<NativeFnType>)
        ensures
            r@.len() == 5,
            r@[0] == NativeFnType::Input,
            r@[1] == NativeFnType::Print,
            r@[2] == NativeFnType::Clock,
            r@[3] == NativeFnType::ReadFile,
            r@[4] == NativeFnType::WriteFile,
    {
        let mut v: Vec<NativeFnType> = Vec::new();
        v.push(NativeFnType::Input);
        v.push(NativeFnType::Print);
        v.push(NativeFnType::Clock);
        v.push(NativeFnType::ReadFile);
        v.push(NativeFnType::WriteFile);
        v
    }

    /// The payload index a boxed native-function value carries.
    pub open spec fn spec_kind_index(self) -> u64 {
        match self {
            NativeFnType::Input => 0,
            NativeFnType::Print => 1,
            NativeFnType::Clock => 2,
            NativeFnType::ReadFile => 3,
            NativeFnType::WriteFile => 4,
        }
    }

    #[verifier::when_used_as_spec(spec_kind_index)]
    pub fn kind_index(self) -> (r: u64)
        ensures
            r == self.spec_kind_index(),
    {
        match self {
            NativeFnType::Input => 0,
            NativeFnType::Print => 1,
            NativeFnType::Clock => 2,
            NativeFnType::ReadFile => 3,
            NativeFnType::WriteFile => 4,
        }
    }

    /// The native of a payload index.
    pub fn from_index(idx: u64) -> (r: Option<NativeFnType>)
        ensures
            idx <= 4 ==> r is Some && r->0.spec_kind_index() == idx,
            idx > 4 ==> r is None,
    {
        if idx == 0 {
            Some(NativeFnType::Input)
        } else if idx == 1 {
            Some(NativeFnType::Print)
        } else if idx == 2 {
            Some(NativeFnType::Clock)
        } else if idx == 3 {
            Some(NativeFnType::ReadFile)
        } else if idx == 4 {
            Some(NativeFnType::WriteFile)
        } else {
            None
        }
    }

    /// The global name under which this native is installed.
    pub fn name_bytes(self) -> (r: Vec<u8>)
        ensures
            self is Input ==> r@ == "input".spec_bytes(),
            self is Print ==> r@ == "print".spec_bytes(),
            self is Clock ==> r@ == "clock".spec_bytes(),
            self is ReadFile ==> r@ == "read".spec_bytes(),
            self is WriteFile ==> r@ == "write".spec_bytes(),
    {
        let name: &str = match self {
            NativeFnType::Input => "input",
            NativeFnType::Print => "print",
            NativeFnType::Clock => "clock",
            NativeFnType::ReadFile => "read",
            NativeFnType::WriteFile => "write",
        };
        vstd::string::StrSliceExecFns::as_bytes_vec(name)
    }
}

/// The interface record of a native: its identity and arity.
#[derive(Debug, Clone, Copy)]
pub struct NativeFn {
    pub name: NativeFnType,
    pub arity: usize,
}

impl NativeFn {
    /// The registry: each native with its arity.
    pub fn get(fn_type: NativeFnType) -> (r: NativeFn)
        ensures
            r.name == fn_type,
            r.arity == spec_native_arity(fn_type),
    {
        match fn_type {
            NativeFnType::Input => NativeFn { name: NativeFnType::Input, arity: 0 },
            NativeFnType::Print => NativeFn { name: NativeFnType::Print, arity: 1 },
            NativeFnType::Clock => NativeFn { name: NativeFnType::Clock, arity: 0 },
            NativeFnType::ReadFile => NativeFn { name: NativeFnType::ReadFile, arity: 1 },
            NativeFnType::WriteFile => NativeFn { name: NativeFnType::WriteFile, arity: 2 },
        }
    }
}

pub open spec fn spec_native_arity(fn_type: NativeFnType) -> usize {
    match fn_type {
        NativeFnType::Input => 0,
        NativeFnType::Print => 1,
        NativeFnType::Clock => 0,
        NativeFnType::ReadFile => 1,
        NativeFnType::WriteFile => 2,
    }
}

/// Declares std::time::SystemTime so the clock wrappers below can carry
/// a reading through; the value stays opaque to the proofs.
#[verifier::external_type_specification]
#[verifier::external_body]
pub struct ExSystemTime(std::time::SystemTime);

/// Relies on std::time::SystemTime::now: the host clock's reading; the
/// result depends on the machine and the moment, so nothing more can be
/// promised of it.
#[verifier::external_body]
fn host_now() -> std::time::SystemTime {
    std::time::SystemTime::now()
}

/// Relies on std::time::SystemTime::duration_since: the span from the
/// Unix epoch to `t`, or `None` for a reading before the epoch.
#[verifier::external_body]
fn host_since_epoch(t: &std::time::SystemTime) -> Option<std::time::Duration> {
    t.duration_since(std::time::SystemTime::UNIX_EPOCH).ok()
}

/// Relies on std::time::Duration::as_millis: the span in whole
/// milliseconds, truncated into 64 bits.
#[verifier::external_body]
fn host_duration_millis(d: &std::time::Duration) -> u64 {
    d.as_millis() as u64
}

/// Milliseconds since the Unix epoch, by the host clock; whatever the
/// clock answers, the caller only learns some number.
pub fn clock_millis() -> (r: u64) {
    let now = host_now();
    let since = host_since_epoch(&now);
    match since {
        Some(d) => host_duration_millis(&d),
        None => 0,
    }
}

/// Declares std::io::Stdin so the input wrapper below can hold the
/// process's input handle; the value stays opaque to the proofs.
#[verifier::external_type_specification]
#[verifier::external_body]
pub struct ExStdin(std::io::Stdin);

/// Relies on std::io::stdin: the process's standard input handle.
#[verifier::external_body]
fn host_stdin() -> std::io::Stdin {
    std::io::stdin()
}

/// Relies on std::io::Stdin::read_line: one line read from standard
/// input, empty at end of input or on an error; what arrives depends on
/// the host, so nothing more is promised.
#[verifier::external_body]
fn host_read_line(inp: &mut std::io::Stdin) -> String {
    let mut buf = String::new();
    let _ = inp.read_line(&mut buf);
    buf
}

/// One line from standard input, as bytes. Whatever the host hands over,
/// the library's own trimming holds: the result ends in neither a line
/// feed nor a carriage return.
pub fn input_line() -> (r: Vec<u8>)
    ensures
        r@.len() > 0 ==> r@.last() != 0x0Au8 && r@.last() != 0x0Du8,
{
    let mut stdin = host_stdin();
    let line = host_read_line(&mut stdin);
    let mut bs = vstd::string::StrSliceExecFns::as_bytes_vec(line.as_str());
    while bs.len() > 0 && (bs[bs.len() - 1] == 0x0A || bs[bs.len() - 1] == 0x0D)
        invariant
            true,
        decreases bs@.len(),
    {
        let _ = bs.pop();
    }
    bs
}

} // verus!
