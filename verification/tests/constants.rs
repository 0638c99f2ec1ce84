use datacollector::constants::{UnsupportedType, ViewDataType};

#[test]
fn view_data_type_reads_dated() {
    assert_eq!(ViewDataType::try_from("Dated"), Ok(ViewDataType::Dated));
}

#[test]
fn view_data_type_reads_grouped_dated() {
    assert_eq!(ViewDataType::try_from("GroupedDated"), Ok(ViewDataType::GroupedDated));
}

#[test]
fn view_data_type_refuses_other_names() {
    for other in ["dated", "", "Grouped", " Dated", "Dated ", "GrouepdDated", "groupeddated"] {
        assert_eq!(ViewDataType::try_from(other), Err(UnsupportedType));
    }
}
