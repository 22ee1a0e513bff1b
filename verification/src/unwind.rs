use vstd::prelude::*;

verus! {

/// The register state of a call, saved so that the call can be abandoned
/// and execution resumed where it was made.
#[derive(PartialEq, Eq, Structural, Debug, Clone, Copy)]
pub struct Continuation {
    pub func: u64,
    pub rax: u64,
    pub rcx: u64,
    pub rdx: u64,
    pub rsi: u64,
    pub rdi: u64,
    pub r8: u64,
    pub r9: u64,
    pub r10: u64,
    pub rflags: u64,
    pub r15: u64,
    pub r14: u64,
    pub r13: u64,
    pub r12: u64,
    pub r11: u64,
    pub rbx: u64,
    pub rbp: u64,
    pub rsp: u64,
}

impl Continuation {
    /// A continuation with every register at zero.
    pub fn zeroed() -> (c: Self)
        ensures
            c == (Continuation {
                func: 0,
                rax: 0,
                rcx: 0,
                rdx: 0,
                rsi: 0,
                rdi: 0,
                r8: 0,
                r9: 0,
                r10: 0,
                rflags: 0,
                r15: 0,
                r14: 0,
                r13: 0,
                r12: 0,
                r11: 0,
                rbx: 0,
                rbp: 0,
                rsp: 0,
            }),
    {
        Continuation {
            func: 0,
            rax: 0,
            rcx: 0,
            rdx: 0,
            rsi: 0,
            rdi: 0,
            r8: 0,
            r9: 0,
            r10: 0,
            rflags: 0,
            r15: 0,
            r14: 0,
            r13: 0,
            r12: 0,
            r11: 0,
            rbx: 0,
            rbp: 0,
            rsp: 0,
        }
    }
}

/// Records `cont` as the continuation to resume when the current call is
/// unwound, copying it register by register into `saved`.
pub fn register_cont(saved: &mut Continuation, cont: &Continuation)
    ensures
        *final(saved) == *cont,
{
    saved.func = cont.func;
    saved.rflags = cont.rflags;
    saved.r15 = cont.r15;
    saved.r14 = cont.r14;
    saved.r13 = cont.r13;
    saved.r12 = cont.r12;
    saved.r11 = cont.r11;
    saved.rbx = cont.rbx;
    saved.rbp = cont.rbp;
    saved.rsp = cont.rsp;
    saved.rax = cont.rax;
    saved.rcx = cont.rcx;
    saved.rdx = cont.rdx;
    saved.rsi = cont.rsi;
    saved.rdi = cont.rdi;
    saved.r8 = cont.r8;
    saved.r9 = cont.r9;
    saved.r10 = cont.r10;
}

/// A call that may be unwound.
pub trait FooTrait {
    fn simple_result(&self, x: u64) -> Result<u64, i64>;
}

/// An object with an id, whose calls are used to exercise unwinding.
pub struct Foo {
    id: u64,
}

impl Foo {
    pub closed spec fn id(&self) -> u64 {
        self.id
    }

    /// The object's id.
    pub fn get_id(&self) -> (r: u64)
        ensures
            r == self.id(),
    {
        self.id
    }

    pub fn new(id: u64) -> (f: Self)
        ensures
            f.id() == id,
    {
        Foo { id }
    }
}

impl FooTrait for Foo {
    /// The object's id, when the call completes. When the call is unwound
    /// instead, it never returns here: its caller gets the result of
    /// `simple_result_err`.
    fn simple_result(&self, x: u64) -> (r: Result<u64, i64>)
        ensures
            r == Ok::<u64, i64>(self.id()),
    {
        let r = self.id;
        Ok(r)
    }
}

/// Calls `s.simple_result(x)` and returns what it returns.
pub fn simple_result(s: &Foo, x: u64) -> (r: Result<u64, i64>)
    ensures
        r == Ok::<u64, i64>(s.id()),
{
    s.simple_result(x)
}

/// What the caller of `simple_result` gets when that call was unwound.
pub fn simple_result_err(s: &Foo, x: u64) -> (r: Result<u64, i64>)
    ensures
        r == Err::<u64, i64>(-1i64),
{
    Err(-1)
}

} // verus!
