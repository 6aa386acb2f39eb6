//! The display texts of the instrument's download-control and
//! download-info signal values, used when decoding live traffic.

use vstd::prelude::*;
use crate::preset_listing::decimal_chars;
use crate::util::push_char;

verus! {

/// Part of the fixed text table.
pub open spec fn cc109_table_part0() -> Seq<(u8, &'static str)> {
    seq![
        (0u8, "[Reboot device]"),
        (1u8, "[Download failed, try again]"),
        (2u8, "[Download in progress]"),
        (4u8, "[Data download completed]"),
        (5u8, "[End of Preset Group]"),
        (6u8, "[Archive failed, try again]"),
        (7u8, "[Query Kenton]"),
        (8u8, "[End of Archive Retrieve]"),
        (9u8, "[Reduce Gain]"),
        (10u8, "[Reduce Polyphony]"),
        (11u8, "[Factory Calibration In Progress]"),
        (12u8, "[ERASE]"),
        (13u8, "[AES Sync Failure]"),
        (14u8, "[Turn On or Disconnect CVC]"),
        (15u8, "[Firmware version mismatch]"),
        (16u8, "[Config to MIDI]"),
        (17u8, "[Begin firmware download]"),
        (18u8, "[Begin data download]"),
        (19u8, "[done with firmware 21364 download]"),
        (20u8, "[End data download]"),
        (21u8, "[MIDI loopback detected]"),
        (24u8, "[begin CEE config send txDsp (from daisy=1 to 2,3)  ]"),
        (25u8, "[end CEE config send txDsp (from daisy=1 to 2,3)  	]"),
        (26u8, "[---- Begin preset ----]"),
        (27u8, "[config send txDsp failure - could try again?]"),
        (28u8, "[after Update File 1 reboot, do Update]"),
        (29u8, "[Yellow LED for archive create]"),
        (30u8, "[HE->Dev: begin Midi stress test]"),
        (31u8, "[HE<-Dev: error in Midi rx sequence]"),
        (32u8, "[HE->Dev: preset names to Midi, then current config]"),
    ]
}

/// Part of the fixed text table.
pub open spec fn cc109_table_part1() -> Seq<(u8, &'static str)> {
    seq![
        (33u8, "[old preset needs manually-implemented update]"),
        (34u8, "[Reset Calibration]"),
        (35u8, "[Refine Calibration]"),
        (36u8, "[full midi transmission rate]"),
        (37u8, "[one-third midi transmission rate]"),
        (38u8, "[one-twentieth midi transmission rate]"),
        (39u8, "[---- Begin system presets ----]"),
        (40u8, "[---- End system presets ----]"),
        (41u8, "[Factory Calibration]"),
        (42u8, "[ready for update after recovery boot]"),
        (43u8, "[done with firmware 21489 download, burn user flash]"),
        (44u8, "[reboot after Firmware File 1]"),
        (45u8, "[toggle Slim Continuum surface alignment mode]"),
        (46u8, "[add currently-playing finger to Trim array]"),
        (47u8, "[remove trim point closest to currently-playing finger]"),
        (48u8, "[remove all trim data]"),
        (49u8, "[---- Begin system presets ----]"),
        (50u8, "[exit Combination Preset mode]"),
        (51u8, "[store calib/global/userPresets to continuuMini factory setup]"),
        (52u8, "[to prev sysPreset]"),
        (53u8, "[to next sysPreset]"),
        (54u8, "[---- Begin Preset Names ----]"),
        (55u8, "[---- End Preset Names ----]"),
        (56u8, "[save Combi preset to same slot or to disk]"),
        (60u8, "[Remake QSPI data]"),
        (63u8, "[Usb-Midi out from Mini did not get Ack]"),
        (64u8, "[Midi rx queue overflow]"),
        (65u8, "[Midi tx queue overflow]"),
        (66u8, "[Midi rx syntax error]"),
        (67u8, "[Midi rx bad bit widths]"),
    ]
}

/// Part of the fixed text table.
pub open spec fn cc109_table_part2() -> Seq<(u8, &'static str)> {
    seq![
        (68u8, "[serial sensors errors]"),
        (69u8, "[output has nan]"),
        (70u8, "[CEE comm glitch]"),
        (71u8, "[End ContinuuMini firmware]"),
        (72u8, "[end scrolling ascii log via Midi]"),
        (73u8, "[daisy=0,1 scrolling ascii log via Midi]"),
        (74u8, "[daisy=2 scrolling ascii log via Midi]"),
        (75u8, "[daisy=3 scrolling ascii log via Midi]"),
        (76u8, "[factory only]"),
        (77u8, "[factory only]"),
        (78u8, "[factory only]"),
        (88u8, "[numDecMat| decrement numeric matrix point]"),
        (89u8, "[numIncMat| increment numeric matrix point]"),
        (90u8, "[mendDisco| mend discontinuity at note (outlier to Sensor Map)]"),
        (91u8, "[rebootRecov| reboot in Recovery Mode]"),
        (92u8, "[stageUp]"),
        (93u8, "[stageDown]"),
        (94u8, "[stageDownOk1]"),
        (95u8, "[stageDownOk2]"),
        (96u8, "[stageDownOk3]"),
        (97u8, "[stageDownFail1]"),
        (98u8, "[stageDownFail2]"),
        (99u8, "[stageDownFail3]"),
        (100u8, "[rebootUser|]"),
        (101u8, "[gridToFlash|]"),
        (102u8, "[Mend divided note]"),
        (103u8, "[startUpdF2| <-HE: beginning of Update File 2]"),
        (104u8, "[Preset not first in a combination]"),
        (105u8, "[Preset first in a dual combination]"),
        (106u8, "[Preset first in triple combination]"),
    ]
}

/// The fixed text table.
pub open spec fn cc109_table() -> Seq<(u8, &'static str)> {
    cc109_table_part0() + cc109_table_part1() + cc109_table_part2()
}

/// Part of the fixed text table.
pub open spec fn cc110_table_part0() -> Seq<(u8, &'static str)> {
    seq![
        (0u8, "[profileEnd]"),
        (100u8, "[Save preset 0]"),
        (101u8, "[Save Preset 1]"),
        (102u8, "[Save Preset 2]"),
        (103u8, "[Save Preset 3]"),
        (104u8, "[Save Preset 4]"),
        (105u8, "[Save Preset 5]"),
        (106u8, "[Save Preset 6]"),
        (107u8, "[Save Preset 7]"),
        (108u8, "[Save Preset 8]"),
        (109u8, "[Save Preset 9]"),
        (110u8, "[Save Preset 10]"),
        (111u8, "[Save Preset 11]"),
        (112u8, "[Save Preset 12]"),
        (113u8, "[Save Preset 13]"),
        (114u8, "[Save Preset 14]"),
        (115u8, "[Save Preset 15]"),
        (116u8, "[Save Preset 16]"),
        (118u8, "Download in progress. Please wait"),
        (119u8, "[archiveNop]"),
        (120u8, "[edRecordArchive]"),
        (121u8, "[cfRetrieveArch]"),
        (123u8, "[archiveEof]"),
        (124u8, "[archiveToFile]"),
        (125u8, "[Finalizing]"),
        (126u8, "[Initializing]"),
        (127u8, "[Profile is being generated. Please wait.]"),
    ]
}

/// The fixed text table.
pub open spec fn cc110_table() -> Seq<(u8, &'static str)> {
    cc110_table_part0()
}

/// The first table entry for a key.
pub open spec fn lookup_pair(entries: Seq<(u8, &'static str)>, k: int, key: u8) -> Option<
    &'static str,
>
    decreases entries.len() - k,
{
    if k < 0 || k >= entries.len() {
        None
    } else if entries[k].0 == key {
        Some(entries[k].1)
    } else {
        lookup_pair(entries, k + 1, key)
    }
}

/// The display text of one signal, if any: a few ranges are generated from
/// the key, the rest come from the fixed tables.
pub open spec fn cc_text_spec(
    t109: Seq<(u8, &'static str)>,
    t110: Seq<(u8, &'static str)>,
    cc: u8,
    key: u8,
) -> Option<Seq<char>> {
    if cc == 109 {
        if 80 <= key <= 87 {
            Some("[Download tuning grid "@ + decimal_chars((1 + key - 80) as nat) + "]"@)
        } else if 107 <= key <= 114 {
            Some("[Demo assortment to group "@ + decimal_chars((1 + key - 107) as nat) + "]"@)
        } else if 115 <= key <= 122 {
            Some("[Erase group "@ + decimal_chars((1 + key - 115) as nat) + "]"@)
        } else {
            match lookup_pair(t109, 0, key) {
                Some(t) => Some(t@),
                None => None,
            }
        }
    } else if cc == 110 {
        if 1 <= key <= 99 {
            Some(decimal_chars(key as nat) + "%"@)
        } else if 101 <= key <= 116 {
            Some("[Save preset "@ + decimal_chars((1 + key - 101) as nat) + "]"@)
        } else {
            match lookup_pair(t110, 0, key) {
                Some(t) => Some(t@),
                None => None,
            }
        }
    } else {
        None
    }
}

/// The fixed display-text tables for the two signal controllers.
pub struct CcText {
    data_109: Vec<(u8, &'static str)>,
    data_110: Vec<(u8, &'static str)>,
}

impl CcText {
    pub closed spec fn spec_109(&self) -> Seq<(u8, &'static str)> {
        self.data_109@
    }

    pub closed spec fn spec_110(&self) -> Seq<(u8, &'static str)> {
        self.data_110@
    }

    /// Builds the fixed tables.
    pub fn new() -> (result: Self)
        ensures
            result.spec_109() == cc109_table(),
            result.spec_110() == cc110_table(),
    {
        let mut result = CcText { data_109: Vec::new(), data_110: Vec::new() };
        result.add_cc109_table_part0();
        result.add_cc109_table_part1();
        result.add_cc109_table_part2();
        result.add_cc110_table_part0();
        proof {
            assert(result.data_109@ =~= cc109_table());
            assert(result.data_110@ =~= cc110_table());
        }
        result
    }

    fn lookup_from(entries: &Vec<(u8, &'static str)>, k: usize, key: u8) -> (r: Option<
        &'static str,
    >)
        requires
            k <= entries@.len(),
        ensures
            r == lookup_pair(entries@, k as int, key),
        decreases entries@.len() - k,
    {
        if k >= entries.len() {
            None
        } else {
            let pair = entries[k];
            if pair.0 == key {
                Some(pair.1)
            } else {
                Self::lookup_from(entries, k + 1, key)
            }
        }
    }

    /// The display text of one signal value, if it has one.
    pub fn get(&self, cc: u8, key: u8) -> (r: Option<String>)
        ensures
            match cc_text_spec(self.spec_109(), self.spec_110(), cc, key) {
                Some(t) => r is Some && r->0@ == t,
                None => r is None,
            },
    {
        if cc == 109 {
            if 80 <= key && key <= 87 {
                let mut s = String::from_str("[Download tuning grid ");
                crate::preset_listing::push_decimal(&mut s, (1 + key - 80) as u16);
                push_char(&mut s, ']');
                proof {
                    reveal_strlit("]");
                    assert("]"@ =~= seq![']']);
                    assert(s@ =~= cc_text_spec(self.spec_109(), self.spec_110(), cc, key)->0);
                }
                Some(s)
            } else if 107 <= key && key <= 114 {
                let mut s = String::from_str("[Demo assortment to group ");
                crate::preset_listing::push_decimal(&mut s, (1 + key - 107) as u16);
                push_char(&mut s, ']');
                proof {
                    reveal_strlit("]");
                    assert("]"@ =~= seq![']']);
                    assert(s@ =~= cc_text_spec(self.spec_109(), self.spec_110(), cc, key)->0);
                }
                Some(s)
            } else if 115 <= key && key <= 122 {
                let mut s = String::from_str("[Erase group ");
                crate::preset_listing::push_decimal(&mut s, (1 + key - 115) as u16);
                push_char(&mut s, ']');
                proof {
                    reveal_strlit("]");
                    assert("]"@ =~= seq![']']);
                    assert(s@ =~= cc_text_spec(self.spec_109(), self.spec_110(), cc, key)->0);
                }
                Some(s)
            } else {
                match Self::lookup_from(&self.data_109, 0, key) {
                    Some(t) => Some(String::from_str(t)),
                    None => None,
                }
            }
        } else if cc == 110 {
            if 1 <= key && key <= 99 {
                let mut s = String::new();
                crate::preset_listing::push_decimal(&mut s, key as u16);
                push_char(&mut s, '%');
                proof {
                    reveal_strlit("%");
                    assert("%"@ =~= seq!['%']);
                    assert(s@ =~= cc_text_spec(self.spec_109(), self.spec_110(), cc, key)->0);
                }
                Some(s)
            } else if 101 <= key && key <= 116 {
                let mut s = String::from_str("[Save preset ");
                crate::preset_listing::push_decimal(&mut s, (1 + key - 101) as u16);
                push_char(&mut s, ']');
                proof {
                    reveal_strlit("]");
                    assert("]"@ =~= seq![']']);
                    assert(s@ =~= cc_text_spec(self.spec_109(), self.spec_110(), cc, key)->0);
                }
                Some(s)
            } else {
                match Self::lookup_from(&self.data_110, 0, key) {
                    Some(t) => Some(String::from_str(t)),
                    None => None,
                }
            }
        } else {
            None
        }
    }

    fn add_cc109_table_part0(&mut self)
        ensures
            final(self).data_109@ == old(self).data_109@ + cc109_table_part0(),
            final(self).data_110@ == old(self).data_110@,
    {
        self.data_109.push((0u8, "[Reboot device]"));
        self.data_109.push((1u8, "[Download failed, try again]"));
        self.data_109.push((2u8, "[Download in progress]"));
        self.data_109.push((4u8, "[Data download completed]"));
        self.data_109.push((5u8, "[End of Preset Group]"));
        self.data_109.push((6u8, "[Archive failed, try again]"));
        self.data_109.push((7u8, "[Query Kenton]"));
        self.data_109.push((8u8, "[End of Archive Retrieve]"));
        self.data_109.push((9u8, "[Reduce Gain]"));
        self.data_109.push((10u8, "[Reduce Polyphony]"));
        self.data_109.push((11u8, "[Factory Calibration In Progress]"));
        self.data_109.push((12u8, "[ERASE]"));
        self.data_109.push((13u8, "[AES Sync Failure]"));
        self.data_109.push((14u8, "[Turn On or Disconnect CVC]"));
        self.data_109.push((15u8, "[Firmware version mismatch]"));
        self.data_109.push((16u8, "[Config to MIDI]"));
        self.data_109.push((17u8, "[Begin firmware download]"));
        self.data_109.push((18u8, "[Begin data download]"));
        self.data_109.push((19u8, "[done with firmware 21364 download]"));
        self.data_109.push((20u8, "[End data download]"));
        self.data_109.push((21u8, "[MIDI loopback detected]"));
        self.data_109.push((24u8, "[begin CEE config send txDsp (from daisy=1 to 2,3)  ]"));
        self.data_109.push((25u8, "[end CEE config send txDsp (from daisy=1 to 2,3)  	]"));
        self.data_109.push((26u8, "[---- Begin preset ----]"));
        self.data_109.push((27u8, "[config send txDsp failure - could try again?]"));
        self.data_109.push((28u8, "[after Update File 1 reboot, do Update]"));
        self.data_109.push((29u8, "[Yellow LED for archive create]"));
        self.data_109.push((30u8, "[HE->Dev: begin Midi stress test]"));
        self.data_109.push((31u8, "[HE<-Dev: error in Midi rx sequence]"));
        self.data_109.push((32u8, "[HE->Dev: preset names to Midi, then current config]"));
        proof {
            assert(self.data_109@ =~= old(self).data_109@ + cc109_table_part0());
        }
    }

    fn add_cc109_table_part1(&mut self)
        ensures
            final(self).data_109@ == old(self).data_109@ + cc109_table_part1(),
            final(self).data_110@ == old(self).data_110@,
    {
        self.data_109.push((33u8, "[old preset needs manually-implemented update]"));
        self.data_109.push((34u8, "[Reset Calibration]"));
        self.data_109.push((35u8, "[Refine Calibration]"));
        self.data_109.push((36u8, "[full midi transmission rate]"));
        self.data_109.push((37u8, "[one-third midi transmission rate]"));
        self.data_109.push((38u8, "[one-twentieth midi transmission rate]"));
        self.data_109.push((39u8, "[---- Begin system presets ----]"));
        self.data_109.push((40u8, "[---- End system presets ----]"));
        self.data_109.push((41u8, "[Factory Calibration]"));
        self.data_109.push((42u8, "[ready for update after recovery boot]"));
        self.data_109.push((43u8, "[done with firmware 21489 download, burn user flash]"));
        self.data_109.push((44u8, "[reboot after Firmware File 1]"));
        self.data_109.push((45u8, "[toggle Slim Continuum surface alignment mode]"));
        self.data_109.push((46u8, "[add currently-playing finger to Trim array]"));
        self.data_109.push((47u8, "[remove trim point closest to currently-playing finger]"));
        self.data_109.push((48u8, "[remove all trim data]"));
        self.data_109.push((49u8, "[---- Begin system presets ----]"));
        self.data_109.push((50u8, "[exit Combination Preset mode]"));
        self.data_109.push((51u8, "[store calib/global/userPresets to continuuMini factory setup]"));
        self.data_109.push((52u8, "[to prev sysPreset]"));
        self.data_109.push((53u8, "[to next sysPreset]"));
        self.data_109.push((54u8, "[---- Begin Preset Names ----]"));
        self.data_109.push((55u8, "[---- End Preset Names ----]"));
        self.data_109.push((56u8, "[save Combi preset to same slot or to disk]"));
        self.data_109.push((60u8, "[Remake QSPI data]"));
        self.data_109.push((63u8, "[Usb-Midi out from Mini did not get Ack]"));
        self.data_109.push((64u8, "[Midi rx queue overflow]"));
        self.data_109.push((65u8, "[Midi tx queue overflow]"));
        self.data_109.push((66u8, "[Midi rx syntax error]"));
        self.data_109.push((67u8, "[Midi rx bad bit widths]"));
        proof {
            assert(self.data_109@ =~= old(self).data_109@ + cc109_table_part1());
        }
    }

    fn add_cc109_table_part2(&mut self)
        ensures
            final(self).data_109@ == old(self).data_109@ + cc109_table_part2(),
            final(self).data_110@ == old(self).data_110@,
    {
        self.data_109.push((68u8, "[serial sensors errors]"));
        self.data_109.push((69u8, "[output has nan]"));
        self.data_109.push((70u8, "[CEE comm glitch]"));
        self.data_109.push((71u8, "[End ContinuuMini firmware]"));
        self.data_109.push((72u8, "[end scrolling ascii log via Midi]"));
        self.data_109.push((73u8, "[daisy=0,1 scrolling ascii log via Midi]"));
        self.data_109.push((74u8, "[daisy=2 scrolling ascii log via Midi]"));
        self.data_109.push((75u8, "[daisy=3 scrolling ascii log via Midi]"));
        self.data_109.push((76u8, "[factory only]"));
        self.data_109.push((77u8, "[factory only]"));
        self.data_109.push((78u8, "[factory only]"));
        self.data_109.push((88u8, "[numDecMat| decrement numeric matrix point]"));
        self.data_109.push((89u8, "[numIncMat| increment numeric matrix point]"));
        self.data_109.push((90u8, "[mendDisco| mend discontinuity at note (outlier to Sensor Map)]"));
        self.data_109.push((91u8, "[rebootRecov| reboot in Recovery Mode]"));
        self.data_109.push((92u8, "[stageUp]"));
        self.data_109.push((93u8, "[stageDown]"));
        self.data_109.push((94u8, "[stageDownOk1]"));
        self.data_109.push((95u8, "[stageDownOk2]"));
        self.data_109.push((96u8, "[stageDownOk3]"));
        self.data_109.push((97u8, "[stageDownFail1]"));
        self.data_109.push((98u8, "[stageDownFail2]"));
        self.data_109.push((99u8, "[stageDownFail3]"));
        self.data_109.push((100u8, "[rebootUser|]"));
        self.data_109.push((101u8, "[gridToFlash|]"));
        self.data_109.push((102u8, "[Mend divided note]"));
        self.data_109.push((103u8, "[startUpdF2| <-HE: beginning of Update File 2]"));
        self.data_109.push((104u8, "[Preset not first in a combination]"));
        self.data_109.push((105u8, "[Preset first in a dual combination]"));
        self.data_109.push((106u8, "[Preset first in triple combination]"));
        proof {
            assert(self.data_109@ =~= old(self).data_109@ + cc109_table_part2());
        }
    }

    fn add_cc110_table_part0(&mut self)
        ensures
            final(self).data_110@ == old(self).data_110@ + cc110_table_part0(),
            final(self).data_109@ == old(self).data_109@,
    {
        self.data_110.push((0u8, "[profileEnd]"));
        self.data_110.push((100u8, "[Save preset 0]"));
        self.data_110.push((101u8, "[Save Preset 1]"));
        self.data_110.push((102u8, "[Save Preset 2]"));
        self.data_110.push((103u8, "[Save Preset 3]"));
        self.data_110.push((104u8, "[Save Preset 4]"));
        self.data_110.push((105u8, "[Save Preset 5]"));
        self.data_110.push((106u8, "[Save Preset 6]"));
        self.data_110.push((107u8, "[Save Preset 7]"));
        self.data_110.push((108u8, "[Save Preset 8]"));
        self.data_110.push((109u8, "[Save Preset 9]"));
        self.data_110.push((110u8, "[Save Preset 10]"));
        self.data_110.push((111u8, "[Save Preset 11]"));
        self.data_110.push((112u8, "[Save Preset 12]"));
        self.data_110.push((113u8, "[Save Preset 13]"));
        self.data_110.push((114u8, "[Save Preset 14]"));
        self.data_110.push((115u8, "[Save Preset 15]"));
        self.data_110.push((116u8, "[Save Preset 16]"));
        self.data_110.push((118u8, "Download in progress. Please wait"));
        self.data_110.push((119u8, "[archiveNop]"));
        self.data_110.push((120u8, "[edRecordArchive]"));
        self.data_110.push((121u8, "[cfRetrieveArch]"));
        self.data_110.push((123u8, "[archiveEof]"));
        self.data_110.push((124u8, "[archiveToFile]"));
        self.data_110.push((125u8, "[Finalizing]"));
        self.data_110.push((126u8, "[Initializing]"));
        self.data_110.push((127u8, "[Profile is being generated. Please wait.]"));
        proof {
            assert(self.data_110@ =~= old(self).data_110@ + cc110_table_part0());
        }
    }
}

} // verus!
