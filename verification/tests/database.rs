use mkv::mkv::elements_database::{class_to_id, class_to_type, id_to_class, Class};
use mkv::mkv::ElementType;

#[test]
fn eldb_test__id_to_class() {
    assert_eq!(id_to_class(0x1A45DFA3), Class::EBML);
    assert_eq!(id_to_class(0x002EB524), Class::ColourSpace);
    assert_eq!(id_to_class(0x000000EC), Class::Void);
    assert_eq!(id_to_class(0x00004285), Class::DocTypeReadVersion);
    assert_eq!(id_to_class(0x1A45DBBBB), Class::Unknown);
}

#[test]
fn eldb_test__class_to_id() {
    assert_eq!(class_to_id(Class::EBML), 0x1A45DFA3);
    assert_eq!(class_to_id(Class::ColourSpace), 0x002EB524);
    assert_eq!(class_to_id(Class::Void), 0x000000EC);
    assert_eq!(class_to_id(Class::DocTypeReadVersion), 0x00004285);
}

#[test]
fn eldb_test__class_to_type() {
    assert_eq!(class_to_type(Class::EBML), ElementType::Master);
    assert_eq!(class_to_type(Class::ColourSpace), ElementType::Binary);
    assert_eq!(class_to_type(Class::Void), ElementType::Binary);
    assert_eq!(class_to_type(Class::DocTypeReadVersion), ElementType::Unsigned);
}

#[test]
fn unknown_class_has_binary_type() {
    assert_eq!(class_to_type(Class::Unknown), ElementType::Binary);
}

#[test]
fn id_class_roundtrip_examples() {
    for c in [Class::EBML, Class::Segment, Class::Cluster, Class::SimpleBlock, Class::TagBinary, Class::CodecID] {
        assert_eq!(id_to_class(class_to_id(c)), c);
    }
    for id in [0x1A45DFA3u64, 0x18538067, 0x1F43B675, 0xA3, 0x4485, 0x86] {
        assert_eq!(class_to_id(id_to_class(id)), id);
    }
}
