use std::str::FromStr;

use bdk_wallet::bitcoin::bip32::DerivationPath as BtcPath;

use bdk_cli::error::Error;
use bdk_cli::path::{ChildNumber, DerivationPath, HARDENED_START};

#[test]
fn account_path_text_is_three_hardened_steps() {
    let path = DerivationPath::from_str("m/84h/1h/0h").unwrap();
    assert_eq!(path.len(), 3);
    assert_eq!(path.to_raw(), vec![0x8000_0054, 0x8000_0001, 0x8000_0000]);
    for i in 0..3 {
        assert!(path.get(i).unwrap().is_hardened());
        assert!(!path.get(i).unwrap().is_normal());
    }
    assert_eq!(path.get(0).unwrap().index(), 84);
    assert_eq!(path.get(1).unwrap().index(), 1);
    assert_eq!(path.get(2).unwrap().index(), 0);
    assert_eq!(path.get(3), None);
    assert_eq!(DerivationPath::master().get(0), None);
}

#[test]
fn apostrophe_and_h_mark_the_same_hardened_step() {
    let a = DerivationPath::from_str("m/44'/1'/0'/0/7").unwrap();
    let b = DerivationPath::from_str("44h/1h/0h/0/7").unwrap();
    assert_eq!(a.to_raw(), b.to_raw());
    assert_eq!(a.to_raw(), vec![HARDENED_START + 44, HARDENED_START + 1, HARDENED_START, 0, 7]);
}

#[test]
fn empty_texts_write_the_master_path() {
    for text in ["", "m", "m/"] {
        let path = DerivationPath::from_str(text).unwrap();
        assert!(path.is_empty());
        assert_eq!(path.len(), 0);
    }
    assert!(DerivationPath::master().is_empty());
}

#[test]
fn malformed_paths_are_refused() {
    let cases = [
        "m//1", "/", "//", "m/84h/", "/84h", "m/x", "m/1x", "m/h", "m/'", "m/-1", "m/1.0", "m/ 1",
        "m/1 ", "m/2147483648", "m/2147483648h", "m/4294967296", "m/99999999999999999999", "m/1hh",
        "m/1'h", "n/1", "M/1", "m/m", "m/m/1", "m/+", "m/+h", "m/1_000", "m/٣", "m/1/é", "mm",
        "/m", "m/*", "m/1/*",
    ];
    for text in cases {
        assert_eq!(DerivationPath::from_str(text).err(), Some(Error::InvalidDerivationPath), "{:?}", text);
    }
}

#[test]
fn largest_index_is_two_to_the_31_minus_one() {
    let path = DerivationPath::from_str("m/2147483647/2147483647h").unwrap();
    assert_eq!(path.to_raw(), vec![0x7fff_ffff, 0xffff_ffff]);
    assert_eq!(path.get(0).unwrap().index(), 0x7fff_ffff);
    assert_eq!(path.get(1).unwrap().index(), 0x7fff_ffff);
    assert!(path.get(1).unwrap().is_hardened());
}

#[test]
fn plus_sign_and_leading_zeros_are_read_as_numbers() {
    assert_eq!(DerivationPath::from_str("m/+5/007h").unwrap().to_raw(), vec![5, HARDENED_START + 7]);
    assert_eq!(DerivationPath::from_str("+0").unwrap().to_raw(), vec![0]);
}

#[test]
fn well_formed_paths_and_what_they_write() {
    let h = HARDENED_START;
    let cases: Vec<(&str, Vec<u32>)> = vec![
        ("m/0", vec![0]),
        ("0", vec![0]),
        ("m/0h", vec![h]),
        ("m/0'", vec![h]),
        ("84'/1'/0'/0/1", vec![h + 84, h + 1, h, 0, 1]),
        ("m/1/2/3/4/5/6/7/8/9/10", vec![1, 2, 3, 4, 5, 6, 7, 8, 9, 10]),
        ("m/2147483647", vec![0x7fff_ffff]),
        ("m/2147483647h", vec![0xffff_ffff]),
        ("m/00000000000000000000000001", vec![1]),
        ("m/44h/0'/7h/1/0", vec![h + 44, h, h + 7, 1, 0]),
    ];
    for (text, raw) in cases {
        let path = DerivationPath::from_str(text).unwrap();
        assert_eq!(path.to_raw(), raw, "{:?}", text);
        assert_eq!(path.to_raw(), BtcPath::from_str(text).unwrap().to_u32_vec());
    }
}

#[test]
fn raw_child_numbers_carry_the_hardened_bit() {
    let normal = ChildNumber::from_normal_idx(5).unwrap();
    let hardened = ChildNumber::from_hardened_idx(5).unwrap();
    assert_eq!(normal.to_raw(), 5);
    assert_eq!(hardened.to_raw(), 0x8000_0005);
    assert_eq!(ChildNumber::from_raw(0x8000_0005), hardened);
    assert_eq!(ChildNumber::from_raw(5), normal);
    assert_eq!(ChildNumber::from_raw(0xffff_ffff).index(), 0x7fff_ffff);
    assert_eq!(ChildNumber::from_raw(0x7fff_ffff).to_raw(), 0x7fff_ffff);
    assert_eq!(ChildNumber::from_raw(0x8000_0000).to_raw(), 0x8000_0000);
    assert!(ChildNumber::from_raw(0x8000_0000).is_hardened());
    assert!(ChildNumber::from_raw(0).is_normal());
}

#[test]
fn child_numbers_out_of_range_are_refused() {
    assert_eq!(ChildNumber::from_normal_idx(HARDENED_START).err(), Some(Error::InvalidDerivationPath));
    assert_eq!(ChildNumber::from_hardened_idx(HARDENED_START).err(), Some(Error::InvalidDerivationPath));
    assert_eq!(ChildNumber::from_normal_idx(u32::MAX).err(), Some(Error::InvalidDerivationPath));
    assert!(ChildNumber::from_normal_idx(HARDENED_START - 1).is_ok());
    assert!(ChildNumber::from_hardened_idx(HARDENED_START - 1).is_ok());
}

#[test]
fn branch_is_one_normal_step() {
    assert_eq!(DerivationPath::branch(0).unwrap().to_raw(), vec![0]);
    assert_eq!(DerivationPath::branch(1).unwrap().to_raw(), vec![1]);
    assert_eq!(DerivationPath::branch(0x7fff_ffff).unwrap().to_raw(), vec![0x7fff_ffff]);
    assert_eq!(DerivationPath::branch(0x8000_0000).err(), Some(Error::InvalidDerivationPath));
    assert_eq!(DerivationPath::branch(u32::MAX).err(), Some(Error::InvalidDerivationPath));
}

#[test]
fn extending_keeps_order_and_hardness() {
    let account = DerivationPath::from_str("m/84h/1h/0h").unwrap();
    let branch = DerivationPath::branch(1).unwrap();
    let full = account.extend(&branch);
    assert_eq!(full.to_raw(), vec![0x8000_0054, 0x8000_0001, 0x8000_0000, 1]);
    assert_eq!(account.to_raw(), vec![0x8000_0054, 0x8000_0001, 0x8000_0000]);
    assert_eq!(branch.to_raw(), vec![1]);
    assert_eq!(branch.extend(&account).to_raw(), vec![1, 0x8000_0054, 0x8000_0001, 0x8000_0000]);
    assert_eq!(account.extend(&DerivationPath::master()).to_raw(), account.to_raw());
    assert_eq!(DerivationPath::master().extend(&account).to_raw(), account.to_raw());
    let theirs = BtcPath::from_str("m/84h/1h/0h").unwrap().extend(BtcPath::from_str("1").unwrap());
    assert_eq!(full.to_raw(), theirs.to_u32_vec());
}

#[test]
fn child_appends_one_step() {
    let path = DerivationPath::master()
        .child(ChildNumber::from_hardened_idx(86).unwrap())
        .child(ChildNumber::from_normal_idx(3).unwrap());
    assert_eq!(path.to_raw(), vec![HARDENED_START + 86, 3]);
    assert_eq!(path.clone().to_raw(), path.to_raw());
}

#[test]
fn raw_paths_round_trip() {
    let raw = vec![0u32, 1, 0x7fff_ffff, 0x8000_0000, 0x8000_0054, 0xffff_ffff];
    let path = DerivationPath::from_raw(&raw);
    assert_eq!(path.to_raw(), raw);
    assert_eq!(path.len(), 6);
    assert!(path.get(3).unwrap().is_hardened());
    assert_eq!(path.get(4).unwrap().index(), 84);
}
