use rugif::region::{
    format_region, format_selection_reply, parse_region, parse_selection_reply, Region,
    SelectionResult,
};

fn region(x: i32, y: i32, width: u32, height: u32) -> Region {
    Region { x, y, width, height }
}

#[test]
fn parse_region_reads_four_fields() {
    assert_eq!(parse_region("100,200,800,600"), Ok(region(100, 200, 800, 600)));
    assert_eq!(parse_region("+5,-7,+8,9"), Ok(region(5, -7, 8, 9)));
    assert_eq!(parse_region("-2147483648,2147483647,4294967295,0"), Ok(region(i32::MIN, i32::MAX, u32::MAX, 0)));
}

#[test]
fn parse_region_rejects_wrong_field_count() {
    let msg = "expected format: x,y,width,height".to_string();
    assert_eq!(parse_region("1,2,3"), Err(msg.clone()));
    assert_eq!(parse_region("1,2,3,4,5"), Err(msg.clone()));
    assert_eq!(parse_region(""), Err(msg));
}

#[test]
fn parse_region_names_the_first_bad_field() {
    assert_eq!(parse_region("a,2,3,4"), Err("bad x: invalid digit found in string".to_string()));
    assert_eq!(parse_region("1,,3,4"), Err("bad y: cannot parse integer from empty string".to_string()));
    assert_eq!(parse_region("1,2,-3,4"), Err("bad width: invalid digit found in string".to_string()));
    assert_eq!(
        parse_region("1,2,3,99999999999"),
        Err("bad height: number too large to fit in target type".to_string())
    );
    assert_eq!(
        parse_region("-2147483649,0,1,1"),
        Err("bad x: number too small to fit in target type".to_string())
    );
    assert_eq!(parse_region(" 1,2,3,4"), Err("bad x: invalid digit found in string".to_string()));
    assert_eq!(parse_region("x,y,3,4"), Err("bad x: invalid digit found in string".to_string()));
}

#[test]
fn parse_region_rejects_a_lone_sign() {
    assert_eq!(parse_region("-,2,3,4"), Err("bad x: invalid digit found in string".to_string()));
    assert_eq!(parse_region("1,+,3,4"), Err("bad y: invalid digit found in string".to_string()));
    assert_eq!(parse_region("1,2,+,4"), Err("bad width: invalid digit found in string".to_string()));
    assert_eq!(parse_region("1,2,3,-"), Err("bad height: invalid digit found in string".to_string()));
}

#[test]
fn format_region_writes_decimal_fields() {
    assert_eq!(format_region(region(-5, 7, 640, 480)), "-5,7,640,480");
    assert_eq!(format_region(region(0, 0, 0, 0)), "0,0,0,0");
}

#[test]
fn region_text_round_trip() {
    for r in [
        region(-5, 7, 640, 480),
        region(i32::MIN, i32::MAX, u32::MAX, 1),
        region(0, 0, 0, 0),
    ] {
        assert_eq!(parse_region(&format_region(r)), Ok(r));
        assert_eq!(
            parse_selection_reply(&format_selection_reply(Some(SelectionResult::Selected(r)))),
            Ok(Some(r))
        );
    }
}

#[test]
fn selection_reply_without_region() {
    assert_eq!(format_selection_reply(Some(SelectionResult::Cancelled)), "cancelled");
    assert_eq!(format_selection_reply(None), "error");
    assert_eq!(parse_selection_reply("cancelled"), Ok(None));
    assert_eq!(parse_selection_reply("error"), Ok(None));
    assert_eq!(parse_selection_reply(""), Ok(None));
}

#[test]
fn selection_reply_is_trimmed() {
    assert_eq!(parse_selection_reply("  1,2,3,4\n"), Ok(Some(region(1, 2, 3, 4))));
}

#[test]
fn selection_reply_errors() {
    assert_eq!(
        parse_selection_reply("1,2"),
        Err("invalid selection result: 1,2".to_string())
    );
    assert_eq!(
        parse_selection_reply("1,x,3,4"),
        Err("invalid digit found in string".to_string())
    );
    assert_eq!(
        parse_selection_reply("1,2,3,"),
        Err("cannot parse integer from empty string".to_string())
    );
}
