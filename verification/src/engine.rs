//! The rule modules and their chaining semantics.
//!
//! A rule module receives a record and either returns it (accepted, possibly
//! transformed), returns an error (rejected, halting the chain), or hands the
//! record to the next stage and returns that stage's result. A chain is run
//! from its first module; a module that accepts without delegating is
//! terminal, and an empty chain accepts every record. Modules log through
//! the capability host and hold no state of their own, so the outcome of a
//! run is a function of the chain and the record alone.

use vstd::prelude::*;
use vstd::string::StringExecFns;

use crate::host::RulesEngineState;
use crate::interface::Error;
use crate::interface::ErrorModel;
use crate::interface::result_model;
use crate::model::Product;
use crate::model::ProductModel;

verus! {

/// A record's description must hold at least this many characters.
pub const MIN_DESCRIPTION_CHARS: usize = 10;

/// A record's price must not exceed this many cents.
pub const MAX_PRICE_CENTS: u64 = 10000;

/// The rule modules this host ships.
#[derive(Clone, Copy, PartialEq, Eq, Structural)]
pub enum RuleModule {
    /// Rejects records whose description is too short; terminal otherwise.
    DescriptionLength,
    /// Rejects records whose price is too high; delegates otherwise.
    PriceCap,
}

pub open spec fn greeting_message() -> Seq<char> {
    "Hello from the WASM Rules Engine!"@
}

pub open spec fn description_check_message() -> Seq<char> {
    "Checking if the product description is longer than 10 characters..."@
}

pub open spec fn description_reject_reason() -> Seq<char> {
    "The product description is too short!"@
}

pub open spec fn price_check_message() -> Seq<char> {
    "Checking price to ensure it is lower than $100.00"@
}

pub open spec fn price_reject_reason() -> Seq<char> {
    "Price is too high!"@
}

/// The result of running a record through a chain of rule modules, starting
/// at the chain's first module. An empty chain accepts the record unchanged;
/// so does a terminal module whose check passes.
pub open spec fn run_chain(chain: Seq<RuleModule>, p: ProductModel) -> Result<
    ProductModel,
    ErrorModel,
>
    decreases chain.len(),
{
    if chain.len() == 0 {
        Ok(p)
    } else {
        match chain[0] {
            RuleModule::DescriptionLength => {
                if p.description.len() < MIN_DESCRIPTION_CHARS {
                    Err(ErrorModel::InvalidProduct(description_reject_reason()))
                } else {
                    Ok(p)
                }
            },
            RuleModule::PriceCap => {
                if p.price_cents > MAX_PRICE_CENTS {
                    Err(ErrorModel::PricingStandardsViolation(price_reject_reason()))
                } else {
                    run_chain(chain.skip(1), p)
                }
            },
        }
    }
}

/// The messages a chain run logs, in order.
pub open spec fn chain_log(chain: Seq<RuleModule>, p: ProductModel) -> Seq<Seq<char>>
    decreases chain.len(),
{
    if chain.len() == 0 {
        Seq::empty()
    } else {
        match chain[0] {
            RuleModule::DescriptionLength => {
                if p.description.len() < MIN_DESCRIPTION_CHARS {
                    seq![greeting_message(), description_check_message(), description_reject_reason()]
                } else {
                    seq![greeting_message(), description_check_message()]
                }
            },
            RuleModule::PriceCap => {
                if p.price_cents > MAX_PRICE_CENTS {
                    seq![price_check_message()]
                } else {
                    seq![price_check_message()] + chain_log(chain.skip(1), p)
                }
            },
        }
    }
}

/// Runs a record through the tail of a chain that starts at `from`.
///
/// The outcome is exactly [`run_chain`] on that tail, so it depends on the
/// chain and the record alone, never on the host state: concurrent
/// invocations against separate states cannot observe one another. Every
/// logger handle a module acquires is released again, so the resource table
/// comes back exactly as it was, and the log sink grows by exactly the
/// messages of [`chain_log`].
pub fn execute_chain_from(
    state: &mut RulesEngineState,
    chain: &Vec<RuleModule>,
    from: usize,
    product: Product,
) -> (r: Result<Product, Error>)
    requires
        old(state).wf(),
        from <= chain@.len(),
        old(state).table_fresh_bound() + (chain@.len() - from) <= u64::MAX,
    ensures
        final(state).wf(),
        result_model(r) == run_chain(chain@.skip(from as int), product@),
        final(state).table_model() == old(state).table_model(),
        final(state).table_fresh_bound() <= old(state).table_fresh_bound() + (chain@.len() - from),
        final(state).sink_model() == old(state).sink_model() + chain_log(
            chain@.skip(from as int),
            product@,
        ),
    decreases chain@.len() - from,
{
    let ghost tail = chain@.skip(from as int);
    if from == chain.len() {
        proof {
            assert(final(state).sink_model() =~= old(state).sink_model() + chain_log(
                tail,
                product@,
            ));
        }
        return Ok(product);
    }
    let ghost table0 = state.table_model();
    let ghost sink0 = state.sink_model();
    match chain[from] {
        RuleModule::DescriptionLength => {
            let logger = state.get_logger();
            let handle = match logger {
                Ok(h) => h,
                Err(e) => { return Err(e) },
            };
            let _ = state.log(handle, "Hello from the WASM Rules Engine!");
            let _ = state.log(handle, "Checking if the product description is longer than 10 characters...");
            if product.description.as_str().unicode_len() < MIN_DESCRIPTION_CHARS {
                let _ = state.log(handle, "The product description is too short!");
                let _ = state.drop_logger(handle);
                proof {
                    assert(state.table_model() =~= table0);
                    assert(state.sink_model() =~= sink0 + chain_log(tail, product@));
                }
                Err(
                    Error::InvalidProduct(
                        String::from_str("The product description is too short!"),
                    ),
                )
            } else {
                let _ = state.drop_logger(handle);
                proof {
                    assert(state.table_model() =~= table0);
                    assert(state.sink_model() =~= sink0 + chain_log(tail, product@));
                }
                Ok(product)
            }
        },
        RuleModule::PriceCap => {
            let logger = state.get_logger();
            let handle = match logger {
                Ok(h) => h,
                Err(e) => { return Err(e) },
            };
            let _ = state.log(handle, "Checking price to ensure it is lower than $100.00");
            let _ = state.drop_logger(handle);
            proof {
                assert(state.table_model() =~= table0);
            }
            if product.price_cents > MAX_PRICE_CENTS {
                proof {
                    assert(state.sink_model() =~= sink0 + chain_log(tail, product@));
                }
                Err(Error::PricingStandardsViolation(String::from_str("Price is too high!")))
            } else {
                let r = execute_chain_from(state, chain, from + 1, product);
                proof {
                    assert(chain@.skip(from + 1) =~= tail.skip(1));
                    assert(state.sink_model() =~= sink0 + chain_log(tail, product@));
                }
                r
            }
        },
    }
}

/// Runs a record through a whole chain of rule modules: the single entry
/// point one invocation issues, with chaining realised by each module
/// delegating to its successor.
pub fn execute_chain(
    state: &mut RulesEngineState,
    chain: &Vec<RuleModule>,
    product: Product,
) -> (r: Result<Product, Error>)
    requires
        old(state).wf(),
        old(state).table_fresh_bound() + chain@.len() <= u64::MAX,
    ensures
        final(state).wf(),
        result_model(r) == run_chain(chain@, product@),
        final(state).table_model() == old(state).table_model(),
        final(state).sink_model() == old(state).sink_model() + chain_log(chain@, product@),
    decreases 0int,
{
    let r = execute_chain_from(state, chain, 0, product);
    proof {
        assert(chain@.skip(0) =~= chain@);
    }
    r
}

/// A chain never transforms a record: whatever the chain, an accepted record
/// comes back unchanged.
pub proof fn lemma_chain_preserves_record(chain: Seq<RuleModule>, p: ProductModel)
    ensures
        run_chain(chain, p) matches Ok(q) ==> q == p,
    decreases chain.len(),
{
    if chain.len() > 0 {
        match chain[0] {
            RuleModule::PriceCap => lemma_chain_preserves_record(chain.skip(1), p),
            RuleModule::DescriptionLength => (),
        }
    }
}

/// A chain that accepts a record is idempotent: running the record it
/// returned through the same chain yields the same record again. In
/// particular a terminal module that accepts every input accepts its own
/// output.
pub proof fn lemma_accepting_chain_idempotent(chain: Seq<RuleModule>, p: ProductModel)
    ensures
        run_chain(chain, p) matches Ok(q) ==> run_chain(chain, q) == Ok::<
            ProductModel,
            ErrorModel,
        >(q),
{
    lemma_chain_preserves_record(chain, p);
}

/// The description-length module alone: a record whose description is
/// shorter than ten characters is rejected as an invalid product, and a
/// record with a long enough description and an acceptable price passes
/// unchanged.
pub proof fn lemma_description_rule(p: ProductModel)
    ensures
        p.description.len() < MIN_DESCRIPTION_CHARS ==> run_chain(
            seq![RuleModule::DescriptionLength],
            p,
        ) == Err::<ProductModel, ErrorModel>(
            ErrorModel::InvalidProduct(description_reject_reason()),
        ),
        p.description.len() >= MIN_DESCRIPTION_CHARS && p.price_cents <= MAX_PRICE_CENTS
            ==> run_chain(seq![RuleModule::DescriptionLength], p) == Ok::<
            ProductModel,
            ErrorModel,
        >(p),
{
}

/// The two-stage chain, price cap first, delegating to the description
/// check: an overpriced record is rejected by the first stage before the
/// second ever runs; a fairly priced record with a short description is
/// rejected by the second stage; a record passing both checks comes back
/// unchanged.
pub proof fn lemma_two_stage_chain(p: ProductModel)
    ensures
        p.price_cents > MAX_PRICE_CENTS ==> run_chain(
            seq![RuleModule::PriceCap, RuleModule::DescriptionLength],
            p,
        ) == Err::<ProductModel, ErrorModel>(
            ErrorModel::PricingStandardsViolation(price_reject_reason()),
        ),
        p.price_cents <= MAX_PRICE_CENTS && p.description.len() < MIN_DESCRIPTION_CHARS
            ==> run_chain(seq![RuleModule::PriceCap, RuleModule::DescriptionLength], p) == Err::<
            ProductModel,
            ErrorModel,
        >(ErrorModel::InvalidProduct(description_reject_reason())),
        p.price_cents <= MAX_PRICE_CENTS && p.description.len() >= MIN_DESCRIPTION_CHARS
            ==> run_chain(seq![RuleModule::PriceCap, RuleModule::DescriptionLength], p) == Ok::<
            ProductModel,
            ErrorModel,
        >(p),
{
    let chain = seq![RuleModule::PriceCap, RuleModule::DescriptionLength];
    assert(chain.skip(1) =~= seq![RuleModule::DescriptionLength]);
    lemma_description_rule(p);
}

} // verus!
