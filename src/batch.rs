//! The decisions of a batch run: which arguments are worked on, whether there
//! is anything to do, and how many files were converted.

use vstd::prelude::*;

use crate::generator::Outcome;

verus! {

/// The arguments whose flag is set, in their order.
pub open spec fn kept(args: Seq<String>, is_file: Seq<bool>) -> Seq<String>
    decreases args.len(),
{
    if args.len() == 0 || is_file.len() == 0 {
        seq![]
    } else {
        let rest = kept(args.drop_last(), is_file.drop_last());
        if is_file.last() {
            rest.push(args.last())
        } else {
            rest
        }
    }
}

/// How many outcomes are successes.
pub open spec fn succeeded_count(outcomes: Seq<Outcome>) -> nat
    decreases outcomes.len(),
{
    if outcomes.len() == 0 {
        0
    } else {
        succeeded_count(outcomes.drop_last()) + if outcomes.last() == Outcome::Succeeded {
            1nat
        } else {
            0nat
        }
    }
}

/// How a batch run starts.
#[derive(Clone, Copy, Debug, PartialEq, Eq, Structural)]
pub enum Launch {
    /// No argument named an existing regular file: nothing is touched.
    NoFiles,
    /// This many files are handed to the workers.
    Process(usize),
}

pub open spec fn launch_of(inputs: Seq<String>) -> Launch {
    if inputs.len() == 0 {
        Launch::NoFiles
    } else {
        Launch::Process(inputs.len() as usize)
    }
}

/// Keeps the arguments that name existing regular files; `is_file[i]` tells
/// whether `args[i]` does. Directories and missing paths are dropped silently.
pub fn select_inputs(args: &Vec<String>, is_file: &Vec<bool>) -> (r: Vec<String>)
    requires
        args.len() == is_file.len(),
    ensures
        r@ == kept(args@, is_file@),
{
    let mut r: Vec<String> = Vec::new();
    let mut i: usize = 0;
    while i < args.len()
        invariant
            i <= args.len(),
            args.len() == is_file.len(),
            r@ == kept(args@.subrange(0, i as int), is_file@.subrange(0, i as int)),
        decreases args.len() - i,
    {
        proof {
            let a = args@.subrange(0, i + 1);
            let f = is_file@.subrange(0, i + 1);
            assert(a.drop_last() =~= args@.subrange(0, i as int));
            assert(f.drop_last() =~= is_file@.subrange(0, i as int));
        }
        if is_file[i] {
            r.push(args[i].clone());
        }
        i = i + 1;
    }
    proof {
        assert(args@.subrange(0, i as int) =~= args@);
        assert(is_file@.subrange(0, i as int) =~= is_file@);
    }
    r
}

/// Whether there is work for the workers.
pub fn launch(inputs: &Vec<String>) -> (r: Launch)
    ensures
        r == launch_of(inputs@),
{
    if inputs.len() == 0 {
        Launch::NoFiles
    } else {
        Launch::Process(inputs.len())
    }
}

/// The number of files converted, read once every worker has finished.
pub fn count_succeeded(outcomes: &Vec<Outcome>) -> (r: usize)
    ensures
        r == succeeded_count(outcomes@),
{
    let mut n: usize = 0;
    let mut i: usize = 0;
    while i < outcomes.len()
        invariant
            i <= outcomes.len(),
            n == succeeded_count(outcomes@.subrange(0, i as int)),
            n <= i,
        decreases outcomes.len() - i,
    {
        proof {
            assert(outcomes@.subrange(0, i + 1).drop_last() =~= outcomes@.subrange(0, i as int));
        }
        if outcomes[i] == Outcome::Succeeded {
            n = n + 1;
        }
        i = i + 1;
    }
    proof {
        assert(outcomes@.subrange(0, i as int) =~= outcomes@);
    }
    n
}

/// Counting is additive over any split of the outcomes: however the files
/// are shared among workers, the parts' counts add up to the whole count.
pub proof fn lemma_count_split(a: Seq<Outcome>, b: Seq<Outcome>)
    ensures
        succeeded_count(a + b) == succeeded_count(a) + succeeded_count(b),
    decreases b.len(),
{
    if b.len() > 0 {
        assert((a + b).drop_last() =~= a + b.drop_last());
        lemma_count_split(a, b.drop_last());
    }
}

/// Counting does not depend on the order in which workers finish.
pub proof fn lemma_count_order_free(a: Seq<Outcome>, b: Seq<Outcome>)
    ensures
        succeeded_count(a + b) == succeeded_count(b + a),
{
    lemma_count_split(a, b);
    lemma_count_split(b, a);
}

/// When every file succeeds the final count is the number of files.
pub proof fn lemma_all_succeeded(outcomes: Seq<Outcome>)
    requires
        forall|i: int| 0 <= i < outcomes.len() ==> outcomes[i] == Outcome::Succeeded,
    ensures
        succeeded_count(outcomes) == outcomes.len(),
    decreases outcomes.len(),
{
    if outcomes.len() > 0 {
        lemma_all_succeeded(outcomes.drop_last());
    }
}

/// When no argument names a regular file the run stops with nothing to do.
pub proof fn lemma_no_files_no_work(args: Seq<String>, is_file: Seq<bool>)
    requires
        args.len() == is_file.len(),
        forall|i: int| 0 <= i < is_file.len() ==> !is_file[i],
    ensures
        kept(args, is_file) == Seq::<String>::empty(),
        launch_of(kept(args, is_file)) == Launch::NoFiles,
    decreases args.len(),
{
    if args.len() > 0 {
        lemma_no_files_no_work(args.drop_last(), is_file.drop_last());
    }
}

} // verus!
