//! The description of an object's signals and slots, as plain data that a
//! view runtime can be given.

use vstd::prelude::*;
use crate::qvariant::QVariant;

verus! {

/// The handle of a meta object that the view runtime made.
pub type DosQMetaObject = usize;

/// A meta object of the view runtime, known by its handle.
pub struct QMeta {
    ptr: DosQMetaObject,
}

/// The handle of `meta`.
pub fn get_dos_qmeta(meta: &QMeta) -> (handle: DosQMetaObject)
    ensures
        handle == meta.handle(),
{
    meta.ptr
}

impl QMeta {
    /// The handle that the meta object is known by.
    pub closed spec fn handle(&self) -> DosQMetaObject {
        self.ptr
    }

    /// The meta object that the runtime knows by `handle`.
    pub fn from_handle(handle: DosQMetaObject) -> (meta: QMeta)
        ensures
            meta.handle() == handle,
    {
        QMeta { ptr: handle }
    }
}

/// One signal: its name, the number of its parameters, and the meta type
/// of each.
#[derive(Debug)]
pub struct SignalDefinition {
    pub name: String,
    pub parameters_count: i32,
    pub parameters_meta_types: Vec<i32>,
}

/// The signals of an object, with their number as the runtime counts it.
#[derive(Debug)]
pub struct SignalDefinitions {
    pub count: i32,
    pub definitions: Vec<SignalDefinition>,
}

/// One slot: its name, the meta type of what it returns, the number of its
/// parameters, and the meta type of each.
#[derive(Debug)]
pub struct SlotDefinition {
    pub name: String,
    pub return_meta_type: i32,
    pub parameters_count: i32,
    pub parameters_meta_types: Vec<i32>,
}

/// The slots of an object, with their number as the runtime counts it.
#[derive(Debug)]
pub struct SlotDefinitions {
    pub count: i32,
    pub definitions: Vec<SlotDefinition>,
}

/// One property: its name, its meta type, and the slots and the signal
/// that read it, write it and tell of its change.
#[derive(Debug)]
pub struct PropertyDefinition {
    pub name: String,
    pub property_meta_type: i32,
    pub read_slot: String,
    pub write_slot: String,
    pub notify_signal: String,
}

/// The properties of an object, with their number as the runtime counts it.
#[derive(Debug)]
pub struct PropertyDefinitions {
    pub count: i32,
    pub definitions: Vec<PropertyDefinition>,
}

impl Default for PropertyDefinitions {
    /// No properties.
    fn default() -> (none: Self)
        ensures
            none.count == 0,
            none.definitions@.len() == 0,
    {
        PropertyDefinitions { count: 0, definitions: Vec::new() }
    }
}

/// Whether `def` says of a signal what `given` says: its name, the number
/// of its parameters and their meta types.
pub open spec fn signal_matches(def: SignalDefinition, given: (&str, i32, Vec<i32>)) -> bool {
    &&& def.name@ == given.0@
    &&& def.parameters_count == given.1
    &&& def.parameters_meta_types@ == given.2@
}

/// Whether `def` says of a slot what `given` says: its name, the meta type
/// of its result, the number of its parameters and their meta types.
pub open spec fn slot_matches(def: SlotDefinition, given: (&str, i32, i32, Vec<i32>)) -> bool {
    &&& def.name@ == given.0@
    &&& def.return_meta_type == given.1
    &&& def.parameters_count == given.2
    &&& def.parameters_meta_types@ == given.3@
}

/// Whether every one of `defs` declares as many parameters as it names
/// meta types for.
pub open spec fn signals_consistent(defs: Seq<SignalDefinition>) -> bool {
    forall|i: int|
        0 <= i < defs.len() ==> (#[trigger] defs[i]).parameters_count
            == defs[i].parameters_meta_types@.len()
}

/// Whether every one of `defs` declares as many parameters as it names
/// meta types for.
pub open spec fn slots_consistent(defs: Seq<SlotDefinition>) -> bool {
    forall|i: int|
        0 <= i < defs.len() ==> (#[trigger] defs[i]).parameters_count
            == defs[i].parameters_meta_types@.len()
}

/// What an object offers to the view runtime: its class name, its signals,
/// its slots and its properties.
#[derive(Debug)]
pub struct QMetaDefinition {
    sig_defs: SignalDefinitions,
    slot_defs: SlotDefinitions,
    prop_defs: PropertyDefinitions,
    pub name: &'static str,
}

impl QMetaDefinition {
    /// The name of the class described.
    pub closed spec fn class_name(&self) -> Seq<char> {
        self.name@
    }

    /// The signals described.
    pub closed spec fn signals(&self) -> SignalDefinitions {
        self.sig_defs
    }

    /// The slots described.
    pub closed spec fn slots(&self) -> SlotDefinitions {
        self.slot_defs
    }

    /// The properties described.
    pub closed spec fn properties(&self) -> PropertyDefinitions {
        self.prop_defs
    }

    /// Describes the class `name` with the given signals (name, number of
    /// parameters, their meta types) and slots (name, meta type of the
    /// result, number of parameters, their meta types), each kept in its
    /// place, and with no properties.
    pub fn new(
        signals: Vec<(&str, i32, Vec<i32>)>,
        slots: Vec<(&str, i32, i32, Vec<i32>)>,
        name: &'static str,
    ) -> (def: Self)
        requires
            signals@.len() <= i32::MAX,
            slots@.len() <= i32::MAX,
        ensures
            def.class_name() == name@,
            def.signals().count == signals@.len(),
            def.signals().definitions@.len() == signals@.len(),
            forall|i: int|
                0 <= i < signals@.len() ==> signal_matches(
                    #[trigger] def.signals().definitions@[i],
                    signals@[i],
                ),
            def.slots().count == slots@.len(),
            def.slots().definitions@.len() == slots@.len(),
            forall|i: int|
                0 <= i < slots@.len() ==> slot_matches(
                    #[trigger] def.slots().definitions@[i],
                    slots@[i],
                ),
            def.properties().count == 0,
            def.properties().definitions@.len() == 0,
    {
        let signal_count = signals.len() as i32;
        let slot_count = slots.len() as i32;
        let mut signal_defs: Vec<SignalDefinition> = Vec::new();
        for given in it: signals
            invariant
                it.seq() == signals@,
                signal_defs@.len() == it.index(),
                forall|i: int|
                    0 <= i < signal_defs@.len() ==> signal_matches(
                        #[trigger] signal_defs@[i],
                        signals@[i],
                    ),
        {
            let (s, argc, types) = given;
            signal_defs.push(
                SignalDefinition {
                    name: s.to_owned(),
                    parameters_count: argc,
                    parameters_meta_types: types,
                },
            );
        }
        let mut slot_defs: Vec<SlotDefinition> = Vec::new();
        for given in it: slots
            invariant
                it.seq() == slots@,
                slot_defs@.len() == it.index(),
                forall|i: int|
                    0 <= i < slot_defs@.len() ==> slot_matches(#[trigger] slot_defs@[i], slots@[i]),
        {
            let (s, ret_type, argc, types) = given;
            slot_defs.push(
                SlotDefinition {
                    name: s.to_owned(),
                    return_meta_type: ret_type,
                    parameters_count: argc,
                    parameters_meta_types: types,
                },
            );
        }
        QMetaDefinition {
            sig_defs: SignalDefinitions { count: signal_count, definitions: signal_defs },
            slot_defs: SlotDefinitions { count: slot_count, definitions: slot_defs },
            prop_defs: PropertyDefinitions::default(),
            name,
        }
    }

    /// The name of the class described.
    pub fn name(&self) -> (n: &'static str)
        ensures
            n@ == self.class_name(),
    {
        self.name
    }

    /// Whether the description can be handed to the runtime as it is: each
    /// count is the number of entries that it counts, and every signal and
    /// slot declares as many parameters as it names meta types for.
    pub fn is_consistent(&self) -> (consistent: bool)
        ensures
            consistent == {
                &&& self.signals().count == self.signals().definitions@.len()
                &&& self.slots().count == self.slots().definitions@.len()
                &&& self.properties().count == self.properties().definitions@.len()
                &&& signals_consistent(self.signals().definitions@)
                &&& slots_consistent(self.slots().definitions@)
            },
    {
        if self.sig_defs.count < 0 || self.sig_defs.count as usize != self.sig_defs.definitions.len() {
            return false;
        }
        if self.slot_defs.count < 0 || self.slot_defs.count as usize
            != self.slot_defs.definitions.len() {
            return false;
        }
        if self.prop_defs.count < 0 || self.prop_defs.count as usize
            != self.prop_defs.definitions.len() {
            return false;
        }
        let mut i: usize = 0;
        while i < self.sig_defs.definitions.len()
            invariant
                i <= self.sig_defs.definitions@.len(),
                signals_consistent(self.sig_defs.definitions@.subrange(0, i as int)),
            decreases self.sig_defs.definitions@.len() - i,
        {
            let def = &self.sig_defs.definitions[i];
            if def.parameters_count < 0 || def.parameters_count as usize
                != def.parameters_meta_types.len() {
                return false;
            }
            assert forall|k: int| 0 <= k < i + 1 implies (#[trigger] self.sig_defs.definitions@.subrange(
                0,
                i + 1,
            )[k]).parameters_count == self.sig_defs.definitions@.subrange(
                0,
                i + 1,
            )[k].parameters_meta_types@.len() by {
                if k < i {
                    assert(self.sig_defs.definitions@.subrange(0, i as int)[k]
                        == self.sig_defs.definitions@[k]);
                }
            }
            i += 1;
        }
        assert(self.sig_defs.definitions@.subrange(0, i as int) =~= self.sig_defs.definitions@);
        let mut j: usize = 0;
        while j < self.slot_defs.definitions.len()
            invariant
                j <= self.slot_defs.definitions@.len(),
                signals_consistent(self.sig_defs.definitions@),
                slots_consistent(self.slot_defs.definitions@.subrange(0, j as int)),
            decreases self.slot_defs.definitions@.len() - j,
        {
            let def = &self.slot_defs.definitions[j];
            if def.parameters_count < 0 || def.parameters_count as usize
                != def.parameters_meta_types.len() {
                return false;
            }
            assert forall|k: int| 0 <= k < j + 1 implies (#[trigger] self.slot_defs.definitions@.subrange(
                0,
                j + 1,
            )[k]).parameters_count == self.slot_defs.definitions@.subrange(
                0,
                j + 1,
            )[k].parameters_meta_types@.len() by {
                if k < j {
                    assert(self.slot_defs.definitions@.subrange(0, j as int)[k]
                        == self.slot_defs.definitions@[k]);
                }
            }
            j += 1;
        }
        assert(self.slot_defs.definitions@.subrange(0, j as int) =~= self.slot_defs.definitions@);
        true
    }

    /// The signals described.
    pub fn signal_definitions(&self) -> (defs: &SignalDefinitions)
        ensures
            *defs == self.signals(),
    {
        &self.sig_defs
    }

    /// The slots described.
    pub fn slot_definitions(&self) -> (defs: &SlotDefinitions)
        ensures
            *defs == self.slots(),
    {
        &self.slot_defs
    }

    /// The properties described.
    pub fn property_definitions(&self) -> (defs: &PropertyDefinitions)
        ensures
            *defs == self.properties(),
    {
        &self.prop_defs
    }
}

/// What an object with signals and slots offers: the call of a slot by its
/// name, and the description of what it has.
pub trait QObjectMacro {
    fn qslot_call(&mut self, name: &str, args: Vec<QVariant>);

    fn qmeta(&self) -> QMetaDefinition;
}

} // verus!
