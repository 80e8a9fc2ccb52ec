use nes::cpu::addressing_type::AddressingType;
use nes::cpu::labels::Labels;

#[test]
fn test_labels_from_file() {
    // the lines the label file holds
    let content = "StartLabel=0x8000\nMainLoop=0x8010\n# This is a comment\n\nEndLabel=FFFF\n";
    let (labels, bad) = Labels::parse(content);

    assert_eq!(labels.get(&0x8000), Some(&"StartLabel".to_string()));
    assert_eq!(labels.get(&0x8010), Some(&"MainLoop".to_string()));
    assert_eq!(labels.get(&0xFFFF), Some(&"EndLabel".to_string()));
    assert_eq!(labels.get(&0x1234), None);
    assert!(bad.is_empty());
}

#[test]
fn test_labels_compatibility() {
    // Test that Labels can be used like the existing HashMap<u16, String>
    let labels: Labels = Labels::from_pairs(vec![(0x3f0, "SomeLabel".into()), (0x8045, "SomeBranch".into())]);

    assert_eq!(labels.get(&0x3f0), Some(&"SomeLabel".to_string()));
    assert_eq!(labels.get(&0x8045), Some(&"SomeBranch".to_string()));
}

#[test]
fn label_file_accepts_dollar_and_reports_bad_addresses() {
    let content = "  Reset = $c000 \nBad=0xZZ\nHuge=12345\nLater=0X00ff\nReset2=C000\n";
    let (labels, bad) = Labels::parse(content);
    // a later line for the same address replaces the earlier name
    assert_eq!(labels.get(&0xc000), Some(&"Reset2".to_string()));
    assert_eq!(labels.get(&0x00ff), Some(&"Later".to_string()));
    assert_eq!(bad, vec![("0xZZ".to_string(), "Bad".to_string()), ("12345".to_string(), "Huge".to_string())]);
}

#[test]
fn insert_returns_the_replaced_label() {
    let mut labels = Labels::new();
    assert_eq!(labels.insert(0x10, "A".to_string()), None);
    assert_eq!(labels.insert(0x10, "B".to_string()), Some("A".to_string()));
    assert_eq!(labels.as_hashmap().len(), 1);
    assert_eq!(labels.into_hashmap().get(&0x10), Some(&"B".to_string()));
}

#[test]
fn operands_are_written_with_labels_or_hex() {
    let labels = Labels::from_pairs(vec![(0x0010, "ptr".to_string()), (0xc000, "Reset".to_string())]);
    assert_eq!(AddressingType::Immediate.to_string(0, 0x0a, 0, &labels), "#$0A");
    assert_eq!(AddressingType::Zp_X.to_string(0, 0x10, 0, &labels), "ptr,X");
    assert_eq!(AddressingType::Indirect_Y.to_string(0, 0x20, 0, &labels), "($20),Y");
    assert_eq!(AddressingType::Absolute.to_string(0, 0, 0xc000, &labels), "Reset");
    assert_eq!(AddressingType::Indirect_Abs_X.to_string(0, 0, 0x1234, &labels), "($1234,X)");
    assert_eq!(AddressingType::Register_A.to_string(0, 0, 0, &labels), "");
    // branch targets: two bytes after the instruction, the offset signed
    assert_eq!(AddressingType::Relative.to_string(0x8000, 0x05, 0, &labels), "$8007");
    assert_eq!(AddressingType::Relative.to_string(0x8000, 0xfe, 0, &labels), "$8000");
    assert_eq!(AddressingType::Zp_Relative.to_string(0x8000, 0, 0x0400, &labels), "$8007");
}
