//! Running external programs, as a capability the commands are given.
use crate::text::{str_views, views};
use vstd::prelude::*;

verus! {

/// Something that runs programs and tells whether they are installed.
/// The real implementation spawns processes; tests record the calls.
pub trait CommandRunner {
    /// Runs `program` with `args`, failing with a message when it cannot be
    /// started or exits unsuccessfully.
    fn run(&self, program: &str, args: &[&str]) -> Result<(), String>;

    /// Whether `program` is installed: `program --version` runs successfully.
    fn program_exists(&self, program: &str) -> bool;

    /// Runs `program` with owned arguments: the result is what `run` gives
    /// for `program` and the same arguments, borrowed, in the same order.
    fn run_owned(&self, program: &str, args: &[String]) -> (r: Result<(), String>)
        ensures
            exists|a: &[&str]|
                str_views(a@) == views(args@) && call_ensures(Self::run, (self, program, a), r),
    {
        let mut borrowed: Vec<&str> = Vec::new();
        let mut i: usize = 0;
        while i < args.len()
            invariant
                i <= args@.len(),
                str_views(borrowed@) == views(args@).take(i as int),
            decreases args@.len() - i,
        {
            let ghost before = borrowed@;
            borrowed.push(args[i].as_str());
            assert(str_views(borrowed@) =~= str_views(before).push(args@[i as int]@));
            assert(views(args@).take(i + 1) =~= views(args@).take(i as int).push(args@[i as int]@));
            i = i + 1;
        }
        assert(views(args@).take(args@.len() as int) =~= views(args@));
        let a = borrowed.as_slice();
        let r = self.run(program, a);
        assert(call_ensures(Self::run, (self, program, a), r));
        r
    }
}

} // verus!
