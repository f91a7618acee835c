use std::collections::VecDeque;

use toktok::header::Header;
use toktok::tlv::TLV;

#[test]
fn test_new_overflow() {
    let dg = TLV::new(Header::UNKNOWN,Some(std::vec![1; 1025]));
    assert_eq!(None,dg);
}

#[test]
fn test_from_to_empty() {
    /* with empty payload */
    let dg = TLV::new(Header::UNKNOWN,None);
    assert_ne!(None,dg);
    let dg = dg.unwrap();

    let dgg = dg.to_bytes();
    assert_eq!(0,dgg[0]);
    assert_eq!(0,dgg[1]);


    let dggg = TLV::from_bytes(dgg);
    assert_ne!(None,dggg);
    let dggg = dggg.unwrap();
    assert_eq!(dggg,dg);
}

#[test]
fn test_from_to_not_empty() {
    /* with not empty payload */
    let dg = TLV::new(Header::UNKNOWN,Some(std::vec![1; 512]));
    assert_ne!(None,dg);
    let dg = dg.unwrap();

    let dgg = dg.to_bytes();
    assert_eq!(2,dgg[0]);
    assert_eq!(0,dgg[1]);


    let dggg = TLV::from_bytes(dgg);
    assert_ne!(None,dggg);
    let dggg = dggg.unwrap();
    assert_eq!(dggg,dg);
}

#[test]
fn test_from_to_full() {
    /* with not empty payload */
    let dg = TLV::new(Header::UNKNOWN,Some(std::vec![1; 1024]));
    assert_ne!(None,dg);
    let dg = dg.unwrap();

    let dgg = dg.to_bytes();
    assert_eq!(0,dgg[0]);
    assert_eq!(0,dgg[1]);


    let dggg = TLV::from_bytes(dgg);
    assert_ne!(None,dggg);
    let dggg = dggg.unwrap();
    assert_eq!(dggg,dg);
}

#[test]
fn test_from_incorrect_length() {
    let mut dg = TLV::new(Header::UNKNOWN,Some(std::vec![1; 512])).unwrap().to_bytes();
    
    // test if you add data
    dg.push_back(2_u8);
    let dgg = TLV::from_bytes(dg.clone());
    assert_eq!(None,dgg);

    // test if you alter length
    dg.pop_back();
    dg.pop_front();
    dg.push_front(1_u8);
    let dggg = TLV::from_bytes(dg);
    assert_eq!(None,dggg);
}

#[test]
fn test_merge_one_to_one() {
    let left: TLV = TLV::new(Header::UNKNOWN,None).unwrap();
    let right: TLV = TLV::new(Header::UNKNOWN,Some(vec![1])).unwrap();

    let merged: TLV = TLV::merge(left,right).unwrap();
    let merged_bytes = merged.to_bytes();

    assert_eq!(merged.header(),Header::MULTIPLE);
    assert_eq!(merged.length(),5);

    assert_eq!(merged_bytes[0],252);
    assert_eq!(merged_bytes[1],5);
    assert_eq!(merged_bytes[2],0);
    assert_eq!(merged_bytes[3],0);
    assert_eq!(merged_bytes[4],0);
    assert_eq!(merged_bytes[5],1);
    assert_eq!(merged_bytes[6],1);
}

#[test]
fn test_merge_one_to_n() {
    let left: TLV = TLV::new(Header::UNKNOWN,None).unwrap();
    let right_0: TLV = TLV::new(Header::UNKNOWN,None).unwrap();
    let right_1: TLV = TLV::new(Header::UNKNOWN,None).unwrap();
    let right: TLV = TLV::merge(right_0,right_1).unwrap();

    let merged: TLV = TLV::merge(left,right).unwrap();
    let merged_bytes = merged.to_bytes();

    assert_eq!(merged.header(),Header::MULTIPLE);
    assert_eq!(merged.length(),6);

    assert_eq!(merged_bytes[0],252);
    assert_eq!(merged_bytes[1],6);
    assert_eq!(merged_bytes[2],0);
    assert_eq!(merged_bytes[3],0);
    assert_eq!(merged_bytes[4],0);
    assert_eq!(merged_bytes[5],0);
    assert_eq!(merged_bytes[6],0);
    assert_eq!(merged_bytes[7],0);
}

#[test]
fn test_merge_n_to_one() {
    let left_0: TLV = TLV::new(Header::UNKNOWN,None).unwrap();
    let left_1: TLV = TLV::new(Header::UNKNOWN,None).unwrap();
    let left: TLV = TLV::merge(left_0,left_1).unwrap();
    let right: TLV = TLV::new(Header::UNKNOWN,None).unwrap();

    let merged: TLV = TLV::merge(left,right).unwrap();
    let merged_bytes = merged.to_bytes();

    assert_eq!(merged.header(),Header::MULTIPLE);
    assert_eq!(merged.length(),6);

    assert_eq!(merged_bytes[0],252);
    assert_eq!(merged_bytes[1],6);
    assert_eq!(merged_bytes[2],0);
    assert_eq!(merged_bytes[3],0);
    assert_eq!(merged_bytes[4],0);
    assert_eq!(merged_bytes[5],0);
    assert_eq!(merged_bytes[6],0);
    assert_eq!(merged_bytes[7],0);
}

#[test]
fn test_merge_n_to_n() {
    let left_0: TLV = TLV::new(Header::UNKNOWN,None).unwrap();
    let left_1: TLV = TLV::new(Header::UNKNOWN,None).unwrap();
    let left: TLV = TLV::merge(left_0,left_1).unwrap();

    let right_0: TLV = TLV::new(Header::UNKNOWN,None).unwrap();
    let right_1: TLV = TLV::new(Header::UNKNOWN,None).unwrap();
    let right: TLV = TLV::merge(right_0,right_1).unwrap();

    let merged: TLV = TLV::merge(left,right).unwrap();
    let merged_bytes = merged.to_bytes();

    assert_eq!(merged.header(),Header::MULTIPLE);
    assert_eq!(merged.length(),8);

    assert_eq!(merged_bytes[0],252);
    assert_eq!(merged_bytes[1],8);
    assert_eq!(merged_bytes[2],0);
    assert_eq!(merged_bytes[3],0);
    assert_eq!(merged_bytes[4],0);
    assert_eq!(merged_bytes[5],0);
    assert_eq!(merged_bytes[6],0);
    assert_eq!(merged_bytes[7],0);
    assert_eq!(merged_bytes[8],0);
    assert_eq!(merged_bytes[9],0);
}

#[test]
fn test_merge_overflow_left() {
    let left: TLV = TLV::new(Header::UNKNOWN,Some(vec![0; 1021])).unwrap();
    let right: TLV = TLV::new(Header::UNKNOWN,None).unwrap();
    let merged: Option<TLV> = TLV::merge(left,right);
    assert_eq!(merged,None);
}

#[test]
fn test_merge_overflow_right() {
    let left: TLV = TLV::new(Header::UNKNOWN,None).unwrap();
    let right: TLV = TLV::new(Header::UNKNOWN,Some(vec![0; 1021])).unwrap();
    let merged: Option<TLV> = TLV::merge(left,right);
    assert_eq!(merged,None);
}

#[test]
fn test_split_empty() {
    let left_0: TLV = TLV::new(Header::UNKNOWN,None).unwrap();
    let left_1: TLV = TLV::new(Header::UNKNOWN,None).unwrap();
    let left: TLV = TLV::merge(left_0,left_1).unwrap();

    let right_0: TLV = TLV::new(Header::UNKNOWN,None).unwrap();
    let right_1: TLV = TLV::new(Header::UNKNOWN,None).unwrap();
    let right: TLV = TLV::merge(right_0,right_1).unwrap();

    let merged: TLV = TLV::merge(left,right).unwrap();

    let splited: Vec<TLV> = merged.split().unwrap();
    for dg in splited.iter() {
        assert_eq!(dg.header(),Header::UNKNOWN);
        assert_eq!(dg.length(),0);
    }
}

#[test]
fn test_split_not_empty() {
    let left_0: TLV = TLV::new(Header::UNKNOWN,None).unwrap();
    let left_1: TLV = TLV::new(Header::UNKNOWN,Some(vec![1,2,3])).unwrap();
    let left: TLV = TLV::merge(left_0,left_1).unwrap();

    let right_0: TLV = TLV::new(Header::UNKNOWN,Some(vec![4,5])).unwrap();
    let right_1: TLV = TLV::new(Header::UNKNOWN,None).unwrap();
    let right: TLV = TLV::merge(right_0,right_1).unwrap();

    let merged: TLV = TLV::merge(left,right).unwrap();

    let splited: Vec<TLV> = merged.split().unwrap();
    assert_eq!(splited.len(),4);
}

#[test]
fn test_split_full() {
    let left_0: TLV = TLV::new(Header::UNKNOWN,None).unwrap();
    let left_1: TLV = TLV::new(Header::UNKNOWN,Some(vec![0; 508])).unwrap();
    let left: TLV = TLV::merge(left_0,left_1).unwrap();

    let right_0: TLV = TLV::new(Header::UNKNOWN,Some(vec![0; 508])).unwrap();
    let right_1: TLV = TLV::new(Header::UNKNOWN,None).unwrap();
    let right: TLV = TLV::merge(right_0,right_1).unwrap();

    let merged: TLV = TLV::merge(left,right).unwrap();

    let splited: Vec<TLV> = merged.split().unwrap();
    assert_eq!(splited.len(),4);
}

#[test]
fn round_trip_every_header() {
    let headers = [Header::UNKNOWN, Header::HELLO, Header::PING, Header::PONG, Header::MULTIPLE];
    for h in headers.iter() {
        for len in [0usize, 1, 2, 511, 1020, 1021, 1023, 1024].iter() {
            let payload: Vec<u8> = (0..*len).map(|i| (i % 251) as u8).collect();
            let t = TLV::new(*h, Some(payload.clone())).unwrap();
            let back = TLV::from_bytes(t.to_bytes()).unwrap();
            assert_eq!(back, t);
            assert_eq!(back.payload(), payload);
            assert_eq!(back.header(), *h);
        }
    }
}

#[test]
fn length_law_word() {
    let t = TLV::new(Header::PONG, Some(vec![7; 300])).unwrap();
    let b = t.to_bytes();
    let tl = b[0] as u16 * 256 + b[1] as u16;
    assert_eq!(tl >> 10, 4);
    assert_eq!(tl & 0x3FF, 300);
    assert_eq!(b.len(), 302);

    let full = TLV::new(Header::PING, Some(vec![1; 1024])).unwrap().to_bytes();
    assert_eq!(full[0], 8);
    assert_eq!(full[1], 0);
    assert_eq!(full.len(), 1026);
}

#[test]
fn empty_frame_bytes() {
    let b = TLV::new(Header::UNKNOWN, None).unwrap().to_bytes();
    assert_eq!(b, VecDeque::from(vec![0u8, 0u8]));
    let t = TLV::from_bytes(VecDeque::from(vec![0u8, 0u8])).unwrap();
    assert_eq!(t.header(), Header::UNKNOWN);
    assert_eq!(t.length(), 0);
    assert_eq!(t.payload(), Vec::<u8>::new());
    assert!(t.mergeable());
}

#[test]
fn from_bytes_rejects_malformed() {
    assert_eq!(TLV::from_bytes(VecDeque::new()), None);
    assert_eq!(TLV::from_bytes(VecDeque::from(vec![0u8])), None);
    // declares 3 bytes, carries 2
    assert_eq!(TLV::from_bytes(VecDeque::from(vec![0u8, 3, 1, 2])), None);
    // a length field of 0 with 1 byte after it
    assert_eq!(TLV::from_bytes(VecDeque::from(vec![0u8, 0, 9])), None);
    // 1026 bytes with a non-zero length field
    let mut long = vec![0u8; 1026];
    long[1] = 5;
    assert_eq!(TLV::from_bytes(VecDeque::from(long)), None);
}

#[test]
fn header_bytes_decode() {
    assert_eq!(Header::from_byte(0), Header::UNKNOWN);
    assert_eq!(Header::from_byte(1), Header::HELLO);
    assert_eq!(Header::from_byte(2), Header::PING);
    assert_eq!(Header::from_byte(4), Header::PONG);
    assert_eq!(Header::from_byte(63), Header::MULTIPLE);
    assert_eq!(Header::from_byte(3), Header::UNKNOWN);
    assert_eq!(Header::from_byte(200), Header::UNKNOWN);
    assert_eq!(Header::MULTIPLE.to_byte(), 63);
    assert_eq!(Header::PONG.to_byte(), 4);
}

#[test]
fn merge_then_split_keeps_order() {
    let a = TLV::new(Header::HELLO, Some(vec![1, 2, 3])).unwrap();
    let b = TLV::new(Header::PING, None).unwrap();
    let c = TLV::new(Header::PONG, Some(vec![9; 40])).unwrap();
    let ab = TLV::merge(a.clone(), b.clone()).unwrap();
    let abc = TLV::merge(ab, c.clone()).unwrap();
    assert_eq!(abc.header(), Header::MULTIPLE);
    assert_eq!(abc.length(), 5 + 2 + 42);
    let parts = abc.split().unwrap();
    assert_eq!(parts, vec![a, b, c]);
}

#[test]
fn merge_at_the_limit() {
    // 2 + 1022 bytes fill a MULTIPLE exactly
    let left = TLV::new(Header::UNKNOWN, None).unwrap();
    let right = TLV::new(Header::PING, Some(vec![3; 1020])).unwrap();
    let m = TLV::merge(left, right).unwrap();
    assert_eq!(m.length(), 1024);
    let over = TLV::merge(TLV::new(Header::UNKNOWN, Some(vec![1])).unwrap(), TLV::new(Header::PING, Some(vec![3; 1020])).unwrap());
    assert_eq!(over, None);
}

#[test]
fn split_single_and_truncated() {
    let t = TLV::new(Header::PING, Some(vec![5, 6])).unwrap();
    assert_eq!(t.split().unwrap(), vec![t.clone()]);
    // a MULTIPLE whose payload stops inside a frame
    let bad = TLV::new(Header::MULTIPLE, Some(vec![0, 4, 1])).unwrap();
    assert_eq!(bad.split(), None);
    let odd = TLV::new(Header::MULTIPLE, Some(vec![0])).unwrap();
    assert_eq!(odd.split(), None);
}

#[test]
fn set_header_keeps_payload() {
    let mut t = TLV::new(Header::PING, Some(vec![1, 2])).unwrap();
    t.set_header(Header::PONG);
    assert_eq!(t.header(), Header::PONG);
    assert_eq!(t.payload(), vec![1, 2]);
    assert_eq!(t.to_bytes()[0], 16);
}
