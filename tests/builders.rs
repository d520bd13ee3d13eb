use rprint::escpos;
use rprint::zpl;

#[test]
fn test_escpos_builder() {
    let items = vec![("商品A".to_string(), 2500), ("商品B".to_string(), 1850)];
    let receipt = escpos::build_receipt("测试小票", &items, 4350);
    assert!(!receipt.is_empty());
    assert!(receipt.starts_with(&escpos::INIT));
}

#[test]
fn receipt_layout() {
    let items = vec![("Tea".to_string(), 1250)];
    let receipt = escpos::build_receipt("Shop", &items, -5);
    let mut expected: Vec<u8> = Vec::new();
    expected.extend_from_slice(&escpos::INIT);
    expected.extend_from_slice(&escpos::ALIGN_CENTER);
    expected.extend_from_slice(&escpos::DOUBLE_HEIGHT);
    expected.extend_from_slice(b"Shop\n");
    expected.extend_from_slice(&escpos::NORMAL_SIZE);
    expected.extend_from_slice(&escpos::ALIGN_LEFT);
    expected.extend_from_slice(b"--------------------------------\n");
    expected.extend_from_slice(format!("{:<20} {:>10}\n", "Tea", "12.50").as_bytes());
    expected.extend_from_slice(b"--------------------------------\n");
    expected.extend_from_slice(&escpos::BOLD_ON);
    expected.extend_from_slice(format!("{:<20} {:>10}\n", "合计", "-0.05").as_bytes());
    expected.extend_from_slice(&escpos::BOLD_OFF);
    expected.extend_from_slice(&escpos::FEED_AND_CUT);
    assert_eq!(receipt, expected);
}

#[test]
fn escpos_commands() {
    assert_eq!(escpos::feed_lines(3), vec![0x1B, b'd', 3]);
    assert_eq!(escpos::beep(2, 5), vec![0x1B, b'B', 2, 5]);
    assert_eq!(escpos::FEED_AND_CUT, *b"\x1Bd\x03\x1Dm");
    assert_eq!(escpos::CUT_FULL, *b"\x1Di");
}

#[test]
fn test_zpl_builder() {
    let label = zpl::build_label("测试商品", "1234567890123", 9999);
    assert!(label.contains("^XA"));
    assert!(label.contains("^XZ"));
    assert!(label.contains("1234567890123"));
}

#[test]
fn label_layout() {
    let label = zpl::build_label("Soap", "42", 350);
    assert_eq!(
        label,
        "^XA\n^PW812^LL406\n^FO50,50^A0,40,40^FDSoap^FS\n^FO50,120^BY2^BCN,80,Y,N,N^FD42^FS\n^FO50,250^A0,60,60^FD¥3.50^FS\n^XZ"
    );
}

#[test]
fn zpl_commands() {
    assert_eq!(zpl::label_size(812, 406), "^PW812^LL406");
    assert_eq!(zpl::field_origin(0, 10), "^FO0,10");
    assert_eq!(zpl::font('B', 30, 20), "^AB,30,20");
    assert_eq!(zpl::field_data("hi"), "^FDhi^FS");
    assert_eq!(zpl::barcode_128(1, 2, 3, "X"), "^FO1,2^BY2^BCN,3,Y,N,N^FDX^FS");
    assert_eq!(zpl::qrcode(5, 6, 4, "url"), "^FO5,6^BQN,2,4^FDQA,url^FS");
    assert_eq!(zpl::LABEL_START, "^XA");
    assert_eq!(zpl::LABEL_END, "^XZ");
}
