use stlink::link::chipid::{chip, get_chip_from_id_u32, stm_chips, STM32ChipID, CHIP_COUNT};
use stlink::link::enums::FlashType;
use stlink::link::link::speed::{
    closest_speed, jtag_default_speed, jtag_speed_map, swd_default_speed, swd_speed_map,
};
use stlink::link::link::version::{api_level, features};
use stlink::link::structs::{SRamInfo, SpeedMap};

#[test]
fn closest_speed_picks_950_khz_for_1000_on_swd() {
    assert_eq!(closest_speed(1000, &swd_speed_map()), SpeedMap { speed: 950, divisor: 3 });
}

#[test]
fn closest_speed_clamps_to_the_fastest_jtag_speed() {
    assert_eq!(closest_speed(100_000, &jtag_speed_map()), SpeedMap { speed: 18000, divisor: 2 });
}

#[test]
fn closest_speed_clamps_to_the_slowest_speed() {
    assert_eq!(closest_speed(0, &swd_speed_map()), SpeedMap { speed: 5, divisor: 798 });
    assert_eq!(closest_speed(1, &jtag_speed_map()), SpeedMap { speed: 140, divisor: 256 });
}

#[test]
fn closest_speed_of_an_empty_table_is_unchanged() {
    assert_eq!(closest_speed(1000, &[]), SpeedMap { speed: 0, divisor: 1 });
}

#[test]
fn closest_speed_of_exact_entries() {
    for entry in swd_speed_map() {
        assert_eq!(closest_speed(entry.speed, &swd_speed_map()), entry);
    }
    for entry in jtag_speed_map() {
        assert_eq!(closest_speed(entry.speed, &jtag_speed_map()), entry);
    }
}

#[test]
fn closest_speed_goes_on_over_a_tie() {
    assert_eq!(closest_speed(1500, &swd_speed_map()), SpeedMap { speed: 1200, divisor: 2 });
    let map = [SpeedMap::new(100, 0), SpeedMap::new(100, 1), SpeedMap::new(50, 2)];
    assert_eq!(closest_speed(50, &map), SpeedMap { speed: 50, divisor: 2 });
}

#[test]
fn closest_speed_minimises_the_distance_on_both_tables() {
    for map in [swd_speed_map(), jtag_speed_map()] {
        for khz in (0..20_000usize).step_by(7) {
            let got = closest_speed(khz, &map);
            let best = map.iter().map(|e| e.speed.abs_diff(khz)).min().unwrap();
            assert_eq!(got.speed.abs_diff(khz), best);
            assert_eq!(closest_speed(khz, &map), got);
        }
    }
}

#[test]
fn closest_speed_stops_at_the_first_rise_of_an_unsorted_table() {
    let map = [SpeedMap::new(10, 0), SpeedMap::new(500, 1), SpeedMap::new(20, 2)];
    assert_eq!(closest_speed(20, &map), SpeedMap { speed: 10, divisor: 0 });
}

#[test]
fn speed_tables_and_defaults() {
    let swd = swd_speed_map();
    assert_eq!(swd.len(), 12);
    assert_eq!(swd[0], SpeedMap { speed: 4000, divisor: 0 });
    assert_eq!(swd[11], SpeedMap { speed: 5, divisor: 798 });
    let jtag = jtag_speed_map();
    assert_eq!(jtag.len(), 8);
    assert_eq!(jtag[4], SpeedMap { speed: 1125, divisor: 32 });
    assert!(swd.windows(2).all(|w| w[0].speed > w[1].speed));
    assert!(jtag.windows(2).all(|w| w[0].speed > w[1].speed));
    assert_eq!(swd_default_speed(), SpeedMap { speed: 1800, divisor: 1 });
    assert_eq!(jtag_default_speed(), SpeedMap { speed: 1125, divisor: 32 });
    assert!(swd.contains(&swd_default_speed()));
    assert!(jtag.contains(&jtag_default_speed()));
}

#[test]
fn chip_lookup_of_0x419() {
    let chip = get_chip_from_id_u32(0x419);
    assert_eq!(chip.id, 0x419);
    assert_eq!(chip.description, "F46x and F47x device");
    assert_eq!(chip.flash_size_reg, 0x1FFF_7A22);
    assert_eq!(chip.sram, vec![SRamInfo { base: 0x2000_0000, size: 0x40000 }]);
    assert_eq!(chip.pagesize, 0x4000);
    assert_eq!(chip.flasht, FlashType::TypeF4);
    assert_eq!(chip.bootrom_base, 0x1FFF_0000);
    assert_eq!(chip.bootrom_size, 0x7800);
}

#[test]
fn chip_lookup_of_an_unknown_identifier_gives_the_sentinel() {
    for id in [0u32, 0x123, 0x7FF, 0x1_0419, u32::MAX] {
        let chip = get_chip_from_id_u32(id);
        assert_eq!(chip.id, 0);
        assert_eq!(chip.description, "Unknown device");
        assert_eq!(chip.flasht, FlashType::Unknown);
        assert_eq!(chip.flash_size_reg, 0);
        assert_eq!(chip.pagesize, 0);
        assert_eq!(chip.sram, vec![SRamInfo { base: 0, size: 0 }]);
        assert_eq!(chip.bootrom_base, 0);
        assert_eq!(chip.bootrom_size, 0);
    }
}

#[test]
fn chip_lookup_of_devices_with_two_sram_regions() {
    let l4 = get_chip_from_id_u32(0x415);
    assert_eq!(l4.description, "L4 device");
    assert_eq!(l4.flasht, FlashType::TypeL4);
    assert_eq!(
        l4.sram,
        vec![SRamInfo { base: 0x2000_0000, size: 0x18000 }, SRamInfo { base: 0x1000_0000, size: 0x8000 }]
    );
    let l496 = get_chip_from_id_u32(STM32ChipID::L496X.id());
    assert_eq!(l496.sram.len(), 2);
    assert_eq!(l496.sram[1], SRamInfo::new(0x10000, 0x1000_0000));
}

#[test]
fn chip_table_rows() {
    let table = stm_chips();
    assert_eq!(table.len(), 48);
    assert_eq!(CHIP_COUNT, 48);
    assert_eq!(table[0].id, 0x451);
    assert_eq!(table[0].description, "F76xxx device");
    assert_eq!(table[0].bootrom_base, 0x0020_0000);
    assert_eq!(table[3].description, "F1 medium-density device");
    assert_eq!(table[3].flasht, FlashType::TypeF0);
    assert_eq!(table[3].pagesize, 0x400);
    assert_eq!(table[46].description, "WB55 device");
    assert_eq!(table[46].flasht, FlashType::TypeWB);
    assert_eq!(table[47].id, 0);
    for (i, row) in table.iter().enumerate() {
        assert_eq!(chip(i).id, row.id);
        assert_eq!(chip(i).description, row.description);
    }
}

#[test]
fn every_chip_identifier_fits_the_mask_or_is_the_sentinel() {
    let table = stm_chips();
    for (i, row) in table.iter().enumerate() {
        if i == 47 {
            assert_eq!(row.id, 0);
        } else {
            assert!((0x400..=0x7FF).contains(&row.id), "row {}", i);
            assert_eq!(row.id & 0x7FF, row.id);
        }
    }
}

#[test]
fn every_chip_is_found_under_its_identifier() {
    let table = stm_chips();
    for row in table.iter() {
        let found = get_chip_from_id_u32(row.id);
        assert_eq!(found.id, row.id);
        assert_eq!(found.description, row.description);
        assert_eq!(found.sram, row.sram);
    }
}

#[test]
fn chip_identifiers_of_the_device_lines() {
    assert_eq!(STM32ChipID::Unknown.id(), 0x000);
    assert_eq!(STM32ChipID::F1Medium.id(), 0x410);
    assert_eq!(STM32ChipID::F4.id(), 0x413);
    assert_eq!(STM32ChipID::F4HD.id(), 0x419);
    assert_eq!(STM32ChipID::F4DSI.id(), 0x434);
    assert_eq!(STM32ChipID::F7XXXX.id(), 0x451);
    assert_eq!(STM32ChipID::G0X1.id(), 0x460);
    assert_eq!(STM32ChipID::L4RX.id(), 0x470);
    assert_eq!(STM32ChipID::WB55.id(), 0x495);
}

#[test]
fn api_level_follows_generation_and_jtag_revision() {
    for jtag in 0..=10 {
        assert_eq!(api_level(1, jtag, 7), 1);
    }
    for jtag in 11..70 {
        assert_eq!(api_level(1, jtag, 7), 2);
    }
    for jtag in 0..70 {
        assert_eq!(api_level(2, jtag, 7), 2);
        assert_eq!(api_level(3, jtag, 7), 3);
        assert_eq!(api_level(0, jtag, 7), 7);
        assert_eq!(api_level(4, jtag, 1), 1);
    }
}

#[test]
fn features_follow_the_revision_thresholds() {
    assert_eq!(features(1, 63), 0);
    assert_eq!(features(2, 12), 0);
    assert_eq!(features(2, 13), 0x01);
    assert_eq!(features(2, 15), 0x01 | 0x10);
    assert_eq!(features(2, 21), 0x01 | 0x10);
    assert_eq!(features(2, 22), 0x01 | 0x10 | 0x02);
    assert_eq!(features(2, 24), 0x01 | 0x10 | 0x02 | 0x04);
    assert_eq!(features(2, 25), 0x01 | 0x10 | 0x02 | 0x04);
    assert_eq!(features(2, 26), 0x1F);
    assert_eq!(features(2, 27), 0x1F);
    assert_eq!(features(3, 0), 0x01 | 0x10 | 0x08);
    assert_eq!(features(3, 40), 0x19);
    assert_eq!(features(4, 40), 0);
}
