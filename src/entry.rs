use vstd::prelude::*;

verus! {

/// A pressure category tracked by the kernel, each exposed as a file under `/proc/pressure`.
#[derive(Clone, Copy, Debug, PartialEq, Eq, Structural)]
pub enum PsiEntry {
    Cpu,
    Io,
    Irq,
    Memory,
}

/// The path of the pressure file of a category.
pub open spec fn entry_path(e: PsiEntry) -> Seq<char> {
    match e {
        PsiEntry::Cpu => "/proc/pressure/cpu"@,
        PsiEntry::Io => "/proc/pressure/io"@,
        PsiEntry::Irq => "/proc/pressure/irq"@,
        PsiEntry::Memory => "/proc/pressure/memory"@,
    }
}

/// Relies on `std::path::Path::exists`: whether the path names something on disk.
/// The answer depends on the machine, so nothing is promised of it.
#[verifier::external_body]
fn path_exists(path: &str) -> (r: bool) {
    std::path::Path::new(path).exists()
}

impl PsiEntry {
    /// The path of this category's pressure file.
    pub fn path(&self) -> (r: &'static str)
        ensures
            r@ == entry_path(*self),
    {
        match self {
            PsiEntry::Cpu => {
                proof { reveal_strlit("/proc/pressure/cpu"); }
                "/proc/pressure/cpu"
            },
            PsiEntry::Io => {
                proof { reveal_strlit("/proc/pressure/io"); }
                "/proc/pressure/io"
            },
            PsiEntry::Irq => {
                proof { reveal_strlit("/proc/pressure/irq"); }
                "/proc/pressure/irq"
            },
            PsiEntry::Memory => {
                proof { reveal_strlit("/proc/pressure/memory"); }
                "/proc/pressure/memory"
            },
        }
    }

    /// Returns `true` if this category's pressure file exists on the running system.
    pub fn is_present(&self) -> (r: bool) {
        path_exists(self.path())
    }
}

} // verus!
