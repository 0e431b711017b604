//! Single-slot reconciliation of a virtual render tree against a live tree.
//!
//! A virtual node describes what one render-tree slot should hold; the live
//! tree is the rendered structure the slot is reconciled against. The live
//! tree is driven through an explicit adapter, [`live::LiveTree`], which
//! records every primitive call it is asked to make, so the reconciler's
//! contracts can state exactly which mutations each case of the protocol
//! performs: mutate a live node in place, replace a live node of the wrong
//! kind, or create and append a fresh one.

pub mod live;
pub mod vnode;
pub mod vtag;
pub mod vtext;
