use vstd::prelude::*;
use thirtyfour::ChromiumLikeCapabilities;
use thirtyfour::ChromeCapabilities;
use thirtyfour::error::WebDriverError;
use crate::options::{Opts, str_views};

verus! {

#[verifier::external_type_specification]
#[verifier::external_body]
pub struct ExChromeCapabilities(ChromeCapabilities);

#[verifier::external_type_specification]
#[verifier::external_body]
pub struct ExWebDriverError(WebDriverError);

/// The browser launch flags that a capability set holds, in order.
pub uninterp spec fn chrome_args(c: ChromeCapabilities) -> Seq<Seq<char>>;

/// A flag list after one more flag is offered: a flag already present is
/// not repeated.
pub open spec fn with_arg(args: Seq<Seq<char>>, arg: Seq<char>) -> Seq<Seq<char>> {
    if args.contains(arg) {
        args
    } else {
        args.push(arg)
    }
}

/// The flag list after each of `added` is offered in turn, starting from `start`.
pub open spec fn with_args(start: Seq<Seq<char>>, added: Seq<Seq<char>>) -> Seq<Seq<char>>
    decreases added.len(),
{
    if added.len() == 0 {
        start
    } else {
        with_arg(with_args(start, added.drop_last()), added.last())
    }
}

/// Relies on `DesiredCapabilities::chrome`: a fresh Chrome capability set
/// carries no launch flags.
#[verifier::external_body]
fn new_chrome_caps() -> (r: ChromeCapabilities)
    ensures
        chrome_args(r) == Seq::<Seq<char>>::empty(),
{
    thirtyfour::DesiredCapabilities::chrome()
}

/// Relies on `ChromiumLikeCapabilities::add_arg`: it stores the flag list
/// as JSON, which a list of strings always is, so it succeeds; the flag is
/// appended unless it is already present.
#[verifier::external_body]
fn add_chrome_arg(caps: &mut ChromeCapabilities, arg: &str) -> (r: Result<(), WebDriverError>)
    ensures
        r is Ok,
        chrome_args(*final(caps)) == with_arg(chrome_args(*old(caps)), arg@),
{
    caps.add_arg(arg)
}

/// Builds the Chrome capability set for a run, offering each of
/// `opts.driver_args` as a launch flag in order.
pub fn load_caps(opts: &Opts) -> (r: ChromeCapabilities)
    ensures
        chrome_args(r) == with_args(Seq::empty(), str_views(opts.driver_args@)),
{
    let mut caps = new_chrome_caps();
    let n = opts.driver_args.len();
    let mut i: usize = 0;
    while i < n
        invariant
            n == opts.driver_args.len(),
            i <= n,
            chrome_args(caps) == with_args(
                Seq::empty(),
                str_views(opts.driver_args@).subrange(0, i as int),
            ),
        decreases n - i,
    {
        let arg: &String = &opts.driver_args[i];
        let added = add_chrome_arg(&mut caps, arg.as_str());
        assert(added is Ok);
        proof {
            let all = str_views(opts.driver_args@);
            assert(all.subrange(0, i + 1).drop_last() == all.subrange(0, i as int));
        }
        i = i + 1;
    }
    proof {
        let all = str_views(opts.driver_args@);
        assert(all.subrange(0, n as int) == all);
    }
    caps
}

/// Distinct launch flags all reach the capability set, in the order given.
pub proof fn lemma_distinct_args_kept_in_order(args: Seq<Seq<char>>)
    requires
        args.no_duplicates(),
    ensures
        with_args(Seq::empty(), args) == args,
    decreases args.len(),
{
    if args.len() > 0 {
        let front = args.drop_last();
        assert(front.no_duplicates());
        lemma_distinct_args_kept_in_order(front);
        if front.contains(args.last()) {
            let j = choose|j: int| 0 <= j < front.len() && front[j] == args.last();
            assert(args[j] == args[args.len() - 1]);
        }
        assert(front.push(args.last()) == args);
    }
}

} // verus!
