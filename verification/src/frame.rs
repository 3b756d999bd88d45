use vstd::prelude::*;

verus! {

/// The user registers the syscall entry path saves on the kernel stack.
#[derive(Debug, Clone, Copy)]
pub struct SyscallFrame {
    pub rax: u64,
    pub rdx: u64,
    pub rsi: u64,
    pub rdi: u64,
    /// The user `rip`, saved from `rcx`.
    pub rip: u64,
    /// The user `rflags`, saved from `r11`.
    pub rflags: u64,
    pub r15: u64,
    pub r14: u64,
    pub r13: u64,
    pub r12: u64,
    pub rbx: u64,
    pub rbp: u64,
}

impl SyscallFrame {
    /// Every register is zero.
    pub open spec fn is_zeroed(&self) -> bool {
        &&& self.rax == 0
        &&& self.rdx == 0
        &&& self.rsi == 0
        &&& self.rdi == 0
        &&& self.rip == 0
        &&& self.rflags == 0
        &&& self.r15 == 0
        &&& self.r14 == 0
        &&& self.r13 == 0
        &&& self.r12 == 0
        &&& self.rbx == 0
        &&& self.rbp == 0
    }
}

impl Default for SyscallFrame {
    fn default() -> (f: Self)
        ensures
            f.is_zeroed(),
    {
        SyscallFrame {
            rax: 0,
            rdx: 0,
            rsi: 0,
            rdi: 0,
            rip: 0,
            rflags: 0,
            r15: 0,
            r14: 0,
            r13: 0,
            r12: 0,
            rbx: 0,
            rbp: 0,
        }
    }
}

} // verus!
