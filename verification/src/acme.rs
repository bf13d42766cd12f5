//! The decisions of the Acme factory simulation: which product is built
//! in a step, for how long, and which products wait in the queue meanwhile.

use vstd::prelude::*;

verus! {

/// Ticks of machine time that a step may take: 0, 1 or 2.
pub const MAX_WORKING: u64 = 3;

/// One production step.
pub struct ProductionStep {
    /// The product built in this step.
    pub product: usize,
    /// How long the machine works on it.
    pub working: u64,
    /// The other products, in increasing order: they wait for `working`.
    pub queued: Vec<usize>,
}

/// The step chosen by two random draws among `products` products.
pub fn plan_production_step(product_draw: usize, working_draw: u64, products: usize) -> (step:
    ProductionStep)
    requires
        products > 0,
    ensures
        step.product == product_draw % products,
        step.working == working_draw % MAX_WORKING,
        step.queued@.len() == products - 1,
        forall|k: int| 0 <= k < step.queued@.len() ==> {
            &&& #[trigger] step.queued@[k] < products
            &&& step.queued@[k] != step.product
            &&& step.queued@[k] == if k < step.product { k } else { k + 1 }
        },
{
    let product = product_draw % products;
    let mut queued: Vec<usize> = Vec::new();
    let mut i: usize = 0;
    while i < products
        invariant
            product < products,
            i <= products,
            queued@.len() == if i <= product { i as int } else { i - 1 },
            forall|k: int| 0 <= k < queued@.len() ==> {
                &&& #[trigger] queued@[k] < i
                &&& queued@[k] != product
                &&& queued@[k] == if k < product { k } else { k + 1 }
            },
        decreases products - i,
    {
        if i != product {
            queued.push(i);
        }
        i = i + 1;
    }
    ProductionStep { product: product, working: working_draw % MAX_WORKING, queued: queued }
}

} // verus!
