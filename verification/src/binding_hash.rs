//! The node-owned hashes from a concept tag to the variable-binding path set
//! and to the propagation binding set of that concept, each localised from
//! the set in use on first write.

use vstd::prelude::*;
use crate::ids::{Id, Cint64, INVALID, VarBindingPathSetId, VarBindingPathDescriptorId,
    PropagationBindingSetId, PropagationBindingDescriptorId, valid_in};
use crate::collections::IntMap;
use crate::context::{ProcessContext, ArenaKind};
use crate::models::VariableBindingPathSet;

verus! {

pub type ConceptVariableBindingPathSetHashId = Id;
pub type ConceptPropagationBindingSetHashId = Id;

/// The localised and the in-use variable-binding path set of one concept.
#[derive(Clone, Copy, PartialEq, Eq, Structural, Debug)]
pub struct ConceptVariableBindingPathSetHashData {
    pub loc_variable_binding_path_set: VarBindingPathSetId,
    pub use_variable_binding_path_set: VarBindingPathSetId,
}

impl ConceptVariableBindingPathSetHashData {
    pub open spec fn spec_new() -> Self {
        ConceptVariableBindingPathSetHashData {
            loc_variable_binding_path_set: Id::NONE,
            use_variable_binding_path_set: Id::NONE,
        }
    }

    /// Neither set present.
    pub fn new() -> (r: Self)
        ensures
            r == Self::spec_new(),
    {
        ConceptVariableBindingPathSetHashData {
            loc_variable_binding_path_set: Id::NONE,
            use_variable_binding_path_set: Id::NONE,
        }
    }
}

/// Concept tag to the variable-binding path sets of that concept.
pub struct ConceptVariableBindingPathSetHash {
    pub process_context: Cint64,
    pub map: IntMap<ConceptVariableBindingPathSetHashData>,
    pub last_var_bind_des_linker: VarBindingPathDescriptorId,
}

/// The entry of `tag` in `m`, or the entry without sets.
pub open spec fn var_path_entry(m: Map<i64, ConceptVariableBindingPathSetHashData>, tag: i64)
    -> ConceptVariableBindingPathSetHashData
{
    if m.contains_key(tag) { m[tag] } else { ConceptVariableBindingPathSetHashData::spec_new() }
}

/// `new_hashes` is `old_hashes` with the map of element `idx` replaced by
/// `m`, every other field and element kept.
pub open spec fn var_hash_updated(
    old_hashes: Seq<ConceptVariableBindingPathSetHash>,
    new_hashes: Seq<ConceptVariableBindingPathSetHash>,
    idx: int,
    m: Map<i64, ConceptVariableBindingPathSetHashData>,
) -> bool {
    &&& new_hashes.len() == old_hashes.len()
    &&& forall|i: int| 0 <= i < old_hashes.len() && i != idx ==> #[trigger] new_hashes[i] == old_hashes[i]
    &&& new_hashes[idx].map@ == m
    &&& new_hashes[idx].process_context == old_hashes[idx].process_context
    &&& new_hashes[idx].last_var_bind_des_linker == old_hashes[idx].last_var_bind_des_linker
}

/// What asking hash `this` for the variable-binding path set of `con_tag`
/// leaves: `r` and the context `new_ctx` after the call on `old_ctx`.
pub open spec fn var_path_lookup_outcome(old_ctx: ProcessContext, new_ctx: ProcessContext, this: Id, con_tag: i64, localize: bool, r: Id) -> bool {
    let hashes = old_ctx.con_var_bind_path_set_hashes@;
    let sets = old_ctx.var_binding_path_sets@;
    let m = hashes[this.index()].map@;
    let d = var_path_entry(m, con_tag);
    if !localize {
        &&& r == d.use_variable_binding_path_set
        &&& new_ctx.agrees_except(old_ctx, Set::empty())
    } else if d.loc_variable_binding_path_set is At {
        &&& r == d.use_variable_binding_path_set
        &&& var_hash_updated(hashes, new_ctx.con_var_bind_path_set_hashes@, this.index(),
            m.insert(con_tag, d))
        &&& new_ctx.agrees_except(old_ctx, set![ArenaKind::ConVarBindPathSetHashes])
    } else {
        &&& r == Id::At(sets.len() as usize)
        &&& new_ctx.var_binding_path_sets@.len() == sets.len() + 1
        &&& new_ctx.var_binding_path_sets@.subrange(0, sets.len() as int) == sets
        &&& new_ctx.var_binding_path_sets@[sets.len() as int].process_context == INVALID
        &&& new_ctx.var_binding_path_sets@[sets.len() as int].binding_paths@ == (
            if d.use_variable_binding_path_set is At {
                sets[d.use_variable_binding_path_set.index()].binding_paths@
            } else {
                Seq::<Id>::empty()
            })
        &&& var_hash_updated(hashes, new_ctx.con_var_bind_path_set_hashes@, this.index(),
            m.insert(con_tag, ConceptVariableBindingPathSetHashData {
                loc_variable_binding_path_set: r,
                use_variable_binding_path_set: r,
            }))
        &&& new_ctx.agrees_except(old_ctx,
            set![ArenaKind::ConVarBindPathSetHashes, ArenaKind::VarBindingPathSets])
    }
}

impl ConceptVariableBindingPathSetHash {
    /// An empty hash owned by `process_context`.
    pub fn new(process_context: Cint64) -> (r: Self)
        ensures
            r.process_context == process_context,
            r.map@ == Map::<i64, ConceptVariableBindingPathSetHashData>::empty(),
            r.last_var_bind_des_linker == Id::NONE,
    {
        ConceptVariableBindingPathSetHash {
            process_context,
            map: IntMap::new(),
            last_var_bind_des_linker: Id::NONE,
        }
    }

    /// Takes the entries and the last descriptor linker of `prev_hash`, or
    /// empties the hash.
    pub fn init_concept_variable_binding_path_set_hash(
        &mut self,
        prev_hash: Option<&ConceptVariableBindingPathSetHash>,
    ) -> (r: &mut Self)
        ensures
            r.process_context == old(self).process_context,
            r.map@ == (match prev_hash {
                Some(p) => p.map@,
                None => Map::<i64, ConceptVariableBindingPathSetHashData>::empty(),
            }),
            r.last_var_bind_des_linker == (match prev_hash {
                Some(p) => p.last_var_bind_des_linker,
                None => Id::NONE,
            }),
            *final(self) == *final(r),
    {
        match prev_hash {
            Some(p) => {
                self.map = p.map.copy();
                self.last_var_bind_des_linker = p.last_var_bind_des_linker;
            },
            None => {
                self.last_var_bind_des_linker = Id::NONE;
                self.map = IntMap::new();
            },
        }
        self
    }

    pub fn get_last_variable_binding_description_linker(&self) -> (r: VarBindingPathDescriptorId)
        ensures
            r == self.last_var_bind_des_linker,
    {
        self.last_var_bind_des_linker
    }

    pub fn set_last_variable_binding_description_linker(
        &mut self,
        var_bind_des: VarBindingPathDescriptorId,
    ) -> (r: &mut Self)
        ensures
            r.last_var_bind_des_linker == var_bind_des,
            r.process_context == old(self).process_context,
            r.map == old(self).map,
            *final(self) == *final(r),
    {
        self.last_var_bind_des_linker = var_bind_des;
        self
    }

    /// The variable-binding path set in use for the concept with tag
    /// `con_tag`. With `localize`, a concept without a localised set gets a
    /// new set holding the paths of the set in use, which becomes both
    /// localised and in use; the entry is recorded in either case.
    pub fn get_variable_binding_path_set(
        ctx: &mut ProcessContext,
        this: ConceptVariableBindingPathSetHashId,
        con_tag: Cint64,
        localize: bool,
    ) -> (r: VarBindingPathSetId)
        requires
            valid_in(this, old(ctx).con_var_bind_path_set_hashes@.len()),
            old(ctx).var_binding_path_sets@.len() < usize::MAX,
            ({
                let d = var_path_entry(old(ctx).con_var_bind_path_set_hashes@[this.index()].map@, con_tag);
                localize && d.loc_variable_binding_path_set is NONE && d.use_variable_binding_path_set is At
                    ==> valid_in(d.use_variable_binding_path_set, old(ctx).var_binding_path_sets@.len())
            }),
        ensures
            var_path_lookup_outcome(*old(ctx), *final(ctx), this, con_tag, localize, r),
    {
        let d = match ctx.con_var_bind_path_set_hash(this).map.get(&con_tag) {
            Some(d) => *d,
            None => ConceptVariableBindingPathSetHashData::new(),
        };
        if !localize {
            return d.use_variable_binding_path_set;
        }
        if d.loc_variable_binding_path_set.is_none() {
            let mut fresh = VariableBindingPathSet::new(INVALID);
            if d.use_variable_binding_path_set.is_some() {
                fresh.init_variable_binding_path_set(Some(ctx.vbpath_set(d.use_variable_binding_path_set)));
            } else {
                fresh.init_variable_binding_path_set(None);
            }
            let ghost sets = ctx.var_binding_path_sets@;
            let new_set = ctx.alloc_vbpath_set(fresh);
            assert(ctx.var_binding_path_sets@.subrange(0, sets.len() as int) =~= sets);
            ctx.con_var_bind_path_set_hash_mut(this).map.insert(
                con_tag,
                ConceptVariableBindingPathSetHashData {
                    loc_variable_binding_path_set: new_set,
                    use_variable_binding_path_set: new_set,
                },
            );
            new_set
        } else {
            ctx.con_var_bind_path_set_hash_mut(this).map.insert(con_tag, d);
            d.use_variable_binding_path_set
        }
    }
}

/// The localised and the in-use propagation binding set of one concept.
#[derive(Clone, Copy, PartialEq, Eq, Structural, Debug)]
pub struct ConceptPropagationBindingSetHashData {
    pub loc_prop_binding_set: PropagationBindingSetId,
    pub use_prop_binding_set: PropagationBindingSetId,
}

impl ConceptPropagationBindingSetHashData {
    pub open spec fn spec_new() -> Self {
        ConceptPropagationBindingSetHashData { loc_prop_binding_set: Id::NONE, use_prop_binding_set: Id::NONE }
    }

    /// Neither set present.
    pub fn new() -> (r: Self)
        ensures
            r == Self::spec_new(),
    {
        ConceptPropagationBindingSetHashData { loc_prop_binding_set: Id::NONE, use_prop_binding_set: Id::NONE }
    }
}

/// Concept tag to the propagation binding sets of that concept.
pub struct ConceptPropagationBindingSetHash {
    pub process_context: Cint64,
    pub map: IntMap<ConceptPropagationBindingSetHashData>,
    pub last_propagation_binding_descriptor: PropagationBindingDescriptorId,
}

/// The entry of `tag` in `m`, or the entry without sets.
pub open spec fn prop_binding_entry(m: Map<i64, ConceptPropagationBindingSetHashData>, tag: i64)
    -> ConceptPropagationBindingSetHashData
{
    if m.contains_key(tag) { m[tag] } else { ConceptPropagationBindingSetHashData::spec_new() }
}

/// `new_hashes` is `old_hashes` with the map of element `idx` replaced by
/// `m`, every other field and element kept.
pub open spec fn prop_hash_updated(
    old_hashes: Seq<ConceptPropagationBindingSetHash>,
    new_hashes: Seq<ConceptPropagationBindingSetHash>,
    idx: int,
    m: Map<i64, ConceptPropagationBindingSetHashData>,
) -> bool {
    &&& new_hashes.len() == old_hashes.len()
    &&& forall|i: int| 0 <= i < old_hashes.len() && i != idx ==> #[trigger] new_hashes[i] == old_hashes[i]
    &&& new_hashes[idx].map@ == m
    &&& new_hashes[idx].process_context == old_hashes[idx].process_context
    &&& new_hashes[idx].last_propagation_binding_descriptor == old_hashes[idx].last_propagation_binding_descriptor
}

impl ConceptPropagationBindingSetHash {
    /// An empty hash owned by `process_context`.
    pub fn new(process_context: Cint64) -> (r: Self)
        ensures
            r.process_context == process_context,
            r.map@ == Map::<i64, ConceptPropagationBindingSetHashData>::empty(),
            r.last_propagation_binding_descriptor == Id::NONE,
    {
        ConceptPropagationBindingSetHash {
            process_context,
            map: IntMap::new(),
            last_propagation_binding_descriptor: Id::NONE,
        }
    }

    /// Takes the entries and the last binding descriptor of `prev_hash`, or
    /// empties the hash.
    pub fn init_concept_propagation_binding_set_hash(
        &mut self,
        prev_hash: Option<&ConceptPropagationBindingSetHash>,
    ) -> (r: &mut Self)
        ensures
            r.process_context == old(self).process_context,
            r.map@ == (match prev_hash {
                Some(p) => p.map@,
                None => Map::<i64, ConceptPropagationBindingSetHashData>::empty(),
            }),
            r.last_propagation_binding_descriptor == (match prev_hash {
                Some(p) => p.last_propagation_binding_descriptor,
                None => Id::NONE,
            }),
            *final(self) == *final(r),
    {
        match prev_hash {
            Some(p) => {
                self.map = p.map.copy();
                self.last_propagation_binding_descriptor = p.last_propagation_binding_descriptor;
            },
            None => {
                self.map = IntMap::new();
                self.last_propagation_binding_descriptor = Id::NONE;
            },
        }
        self
    }

    pub fn get_last_propagation_binding_descriptor(&self) -> (r: PropagationBindingDescriptorId)
        ensures
            r == self.last_propagation_binding_descriptor,
    {
        self.last_propagation_binding_descriptor
    }

    pub fn set_last_propagation_binding_descriptor(
        &mut self,
        prop_bind_des: PropagationBindingDescriptorId,
    ) -> (r: &mut Self)
        ensures
            r.last_propagation_binding_descriptor == prop_bind_des,
            r.process_context == old(self).process_context,
            r.map == old(self).map,
            *final(self) == *final(r),
    {
        self.last_propagation_binding_descriptor = prop_bind_des;
        self
    }

    /// The propagation binding set in use for the concept with tag
    /// `con_tag`. With `localize`, the entry of the concept is recorded (an
    /// entry without sets when there was none); no set is allocated, and the
    /// set in use, possibly none, is returned.
    pub fn get_propagation_binding_set(
        ctx: &mut ProcessContext,
        this: ConceptPropagationBindingSetHashId,
        con_tag: Cint64,
        localize: bool,
    ) -> (r: PropagationBindingSetId)
        requires
            valid_in(this, old(ctx).con_prop_binding_set_hashes@.len()),
        ensures
            ({
                let hashes = old(ctx).con_prop_binding_set_hashes@;
                let m = hashes[this.index()].map@;
                let d = prop_binding_entry(m, con_tag);
                &&& r == d.use_prop_binding_set
                &&& !localize ==> final(ctx).agrees_except(*old(ctx), Set::empty())
                &&& localize ==> prop_hash_updated(hashes, final(ctx).con_prop_binding_set_hashes@, this.index(),
                    m.insert(con_tag, d))
                &&& localize ==> final(ctx).agrees_except(*old(ctx), set![ArenaKind::ConPropBindingSetHashes])
            }),
    {
        let d = match ctx.con_prop_binding_set_hash(this).map.get(&con_tag) {
            Some(d) => *d,
            None => ConceptPropagationBindingSetHashData::new(),
        };
        if localize {
            ctx.con_prop_binding_set_hash_mut(this).map.insert(con_tag, d);
        }
        d.use_prop_binding_set
    }
}

} // verus!
