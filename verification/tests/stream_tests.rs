use minirt::stream::classifyTransfer;
use minirt::stream::MemoryStreamReader;
use minirt::stream::MemoryStreamWriter;

#[test]
fn testMemoryWriteStream() {
    let mut msw = MemoryStreamWriter::new();
    let string = "hello world".as_bytes();
    assert!(msw.write(string) == Result::Ok(11));
    assert!(msw.tell() == 11);
    assert!(msw.size() == 11);
    let data = msw.data().asArray();
    assert!(data.len() == 11);
    for i in 0..string.len() {
        assert!(data[i] == string[i]);
    }
    assert!(msw.seek(5) == Result::Ok(5));
    assert!(msw.write("1234".as_bytes()) == Result::Ok(4));
    assert!(msw.tell() == 9);
    let string = "hello1234ld".as_bytes();
    let data = msw.data().asArray();
    assert!(data.len() == 11);
    for i in 0..string.len() {
        assert!(data[i] == string[i]);
    }
    assert!(msw.seek(14) == Result::Ok(11));
}

#[test]
fn testMemoryReadStream() {
    let mut msr = MemoryStreamReader::from("hello world".as_bytes());
    assert!(msr.tell() == 0);
    assert!(msr.size() == 11);
    let string = "hello world".as_bytes();
    let mut buff = [0u8; 11];
    assert!(msr.read(&mut buff) == Result::Ok(11));
    for i in 0..string.len() {
        assert!(buff[i] == string[i]);
    }
    assert!(msr.seek(5) == Result::Ok(5));

    let mut buff = [0u8; 4];
    assert!(msr.read(&mut buff) == Result::Ok(4));
    assert!(msr.tell() == 9);
    let string = " wor".as_bytes();
    for i in 0..string.len() {
        assert!(buff[i] == string[i]);
    }
    assert!(msr.seek(14) == Result::Ok(11));

    assert!("0.1234".parse::<f32>().unwrap() == 0.1234_f32);
}

#[test]
fn testReadPastEnd() {
    let mut msr = MemoryStreamReader::from(&[1u8, 2, 3]);
    let mut buff = [9u8; 8];
    assert_eq!(msr.read(&mut buff), Ok(3));
    assert_eq!(&buff[0..3], &[1u8, 2, 3]);
    assert_eq!(&buff[3..], &[9u8; 5]);
    assert!(msr.isEOF());
    assert_eq!(msr.read(&mut buff), Ok(0));
    assert_eq!(msr.tell(), 3);
}

#[test]
fn testWriterExtendsAtCursor() {
    let mut msw = MemoryStreamWriter::new();
    assert_eq!(msw.write(&[1u8, 2, 3]), Ok(3));
    assert_eq!(msw.seek(2), Ok(2));
    assert_eq!(msw.write(&[8u8, 9]), Ok(2));
    assert_eq!(msw.size(), 4);
    assert_eq!(msw.tell(), 4);
    assert_eq!(msw.data().asArray(), &[1u8, 2, 8, 9]);
}

#[test]
fn testClassifyTransfer() {
    assert_eq!(classifyTransfer(4, 4, false), Ok(4));
    assert_eq!(classifyTransfer(4, 4, true), Ok(4));
    assert_eq!(classifyTransfer(2, 4, false), Ok(2));
    assert_eq!(classifyTransfer(2, 4, true), Err(()));
}

#[test]
fn testWriterDataMut() {
    let mut msw = MemoryStreamWriter::new();
    assert_eq!(msw.write(&[5u8]), Ok(1));
    msw.dataMut().pushBack(6);
    assert_eq!(msw.size(), 2);
    assert_eq!(msw.data().asArray(), &[5u8, 6]);
}
