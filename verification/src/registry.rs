//! The registry of default return values: one literal per C type name.

use vstd::prelude::*;
use crate::signature::spec_parameters;

verus! {

/// The map that a list of `(type, literal)` entries denotes; of two entries
/// for one type the later one counts.
pub open spec fn spec_entries_map(entries: Seq<(Seq<char>, Seq<char>)>) -> Map<
    Seq<char>,
    Seq<char>,
>
    decreases entries.len(),
{
    if entries.len() == 0 {
        Map::empty()
    } else {
        spec_entries_map(entries.drop_last()).insert(entries.last().0, entries.last().1)
    }
}

/// The registry that covers the SDK's headers: the primitive types and the
/// SDK's enumerations, each with one of its valid values.
pub open spec fn spec_default_values() -> Map<Seq<char>, Seq<char>> {
    Map::<Seq<char>, Seq<char>>::empty().insert("bool"@, "true"@).insert("uint8_t"@, "0"@).insert(
        "uint16_t"@,
        "0"@,
    ).insert("uint32_t"@, "0"@).insert("float"@, "0.1"@).insert("int32_t"@, "-1"@).insert(
        "acc_config_profile_t"@,
        "ACC_CONFIG_PROFILE_3"@,
    ).insert("acc_config_idle_state_t"@, "ACC_CONFIG_IDLE_STATE_SLEEP"@).insert(
        "acc_config_prf_t"@,
        "ACC_CONFIG_PRF_13_0_MHZ"@,
    ).insert("acc_rss_test_state_t"@, "ACC_RSS_TEST_STATE_COMPLETE"@).insert(
        "acc_detector_distance_threshold_method_t"@,
        "ACC_DETECTOR_DISTANCE_THRESHOLD_METHOD_FIXED_STRENGTH"@,
    ).insert(
        "acc_detector_distance_peak_sorting_t"@,
        "ACC_DETECTOR_DISTANCE_PEAK_SORTING_STRONGEST"@,
    ).insert("acc_sensor_id_t"@, "1"@).insert(
        "acc_detector_distance_reflector_shape_t"@,
        "ACC_DETECTOR_DISTANCE_REFLECTOR_SHAPE_GENERIC"@,
    )
}

/// A mapping from C type names to the literal a stub returns for that type.
#[derive(Debug, Clone)]
pub struct DefaultValueMap {
    entries: Vec<(String, String)>,
}

impl View for DefaultValueMap {
    type V = Map<Seq<char>, Seq<char>>;

    closed spec fn view(&self) -> Map<Seq<char>, Seq<char>> {
        spec_entries_map(spec_parameters(self.entries@))
    }
}

impl DefaultValueMap {
    /// The registry without entries.
    pub fn new() -> (r: Self)
        ensures
            r@ == Map::<Seq<char>, Seq<char>>::empty(),
    {
        let r = DefaultValueMap { entries: Vec::new() };
        proof {
            assert(spec_parameters(r.entries@) =~= Seq::empty());
        }
        r
    }

    /// Registers `literal` as the value returned for `kind`, in place of an
    /// earlier literal for that type.
    pub fn insert(&mut self, kind: String, literal: String)
        ensures
            final(self)@ == old(self)@.insert(kind@, literal@),
    {
        let ghost before = spec_parameters(self.entries@);
        let ghost entry = (kind@, literal@);
        self.entries.push((kind, literal));
        proof {
            let after = spec_parameters(self.entries@);
            assert(after.drop_last() =~= before);
            assert(after.last() == entry);
        }
    }

    /// The literal registered for `kind`, if there is one.
    pub fn get(&self, kind: &str) -> (r: Option<&String>)
        ensures
            match r {
                Some(literal) => self@.contains_key(kind@) && literal@ == self@[kind@],
                None => !self@.contains_key(kind@),
            },
    {
        let ghost all = spec_parameters(self.entries@);
        let wanted = kind.to_owned();
        let mut i: usize = self.entries.len();
        proof {
            assert(all.take(i as int) =~= all);
        }
        while i > 0
            invariant
                i <= self.entries.len(),
                all == spec_parameters(self.entries@),
                wanted@ == kind@,
                self@ == spec_entries_map(all),
                self@.contains_key(kind@) == spec_entries_map(all.take(i as int)).contains_key(
                    kind@,
                ),
                self@.contains_key(kind@) ==> self@[kind@] == spec_entries_map(
                    all.take(i as int),
                )[kind@],
            decreases i,
        {
            proof {
                assert(all.take(i as int).drop_last() =~= all.take(i - 1));
                assert(all.take(i as int).last() == all[i - 1]);
            }
            if self.entries[i - 1].0 == wanted {
                return Some(&self.entries[i - 1].1);
            }
            i = i - 1;
        }
        None
    }

    /// The registry that covers the SDK's headers.
    pub fn standard() -> (r: Self)
        ensures
            r@ == spec_default_values(),
    {
        let mut r = DefaultValueMap::new();
        r.insert("bool".to_owned(), "true".to_owned());
        r.insert("uint8_t".to_owned(), "0".to_owned());
        r.insert("uint16_t".to_owned(), "0".to_owned());
        r.insert("uint32_t".to_owned(), "0".to_owned());
        r.insert("float".to_owned(), "0.1".to_owned());
        r.insert("int32_t".to_owned(), "-1".to_owned());
        r.insert("acc_config_profile_t".to_owned(), "ACC_CONFIG_PROFILE_3".to_owned());
        r.insert("acc_config_idle_state_t".to_owned(), "ACC_CONFIG_IDLE_STATE_SLEEP".to_owned());
        r.insert("acc_config_prf_t".to_owned(), "ACC_CONFIG_PRF_13_0_MHZ".to_owned());
        r.insert("acc_rss_test_state_t".to_owned(), "ACC_RSS_TEST_STATE_COMPLETE".to_owned());
        r.insert(
            "acc_detector_distance_threshold_method_t".to_owned(),
            "ACC_DETECTOR_DISTANCE_THRESHOLD_METHOD_FIXED_STRENGTH".to_owned(),
        );
        r.insert(
            "acc_detector_distance_peak_sorting_t".to_owned(),
            "ACC_DETECTOR_DISTANCE_PEAK_SORTING_STRONGEST".to_owned(),
        );
        r.insert("acc_sensor_id_t".to_owned(), "1".to_owned());
        r.insert(
            "acc_detector_distance_reflector_shape_t".to_owned(),
            "ACC_DETECTOR_DISTANCE_REFLECTOR_SHAPE_GENERIC".to_owned(),
        );
        r
    }
}

} // verus!
