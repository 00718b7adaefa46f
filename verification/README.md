# engine

Per-test process data of a tableau reasoner, verified with Verus.

The process context (`src/context.rs`) owns the arenas of the objects that
this library models; every object is addressed by an `Id`. Linker chains
are sequences of ids threaded through `next` handles, and their contracts are
stated over walks of those chains (`src/chain.rs`). The modules under `src/`
hold the candidate hashes used for blocking, the blocking record of a node,
the merging restriction of a branch, the reapply queue, the review queues,
the binding-set hashes, the branching tree, the backward propagation by
role of a node (`src/backward_propagation.rs`), the processing data box of a
test, and part of the saturation layer: the reapply labels of saturation
nodes and their copying (`src/saturation_label.rs`), the successor
extensions by role (`src/saturation_extension.rs`), and saturation nodes
with their extension data, nominal handling, successor-connected nominals,
applied datatypes and backward propagation, including the copying of a node
(`src/saturation_node.rs`). Branch epochs (`src/journal.rs`) snapshot
the journaled arenas when an alternative is opened and restore them when it
is closed. `src/laws.rs` states the properties that span several operations.

## What is not modelled

The context holds the arenas listed above and no others. Not modelled are:
the processing queues of individuals and concepts; the role-successor,
distinct and disjoint hashes and the individual links that they index; the
node-switch history; the grounding, marker, representative-binding and
merging hashes and the reactivation queues of the processing data box; and
the rest of the saturation layer (successor data, the linked role-successor
hashes, nominal dependencies and the critical-concept queues). The number of
main entries from which a copied reapply label is flattened is a parameter
of the copy.

`tests/` exercises the library on concrete values.
