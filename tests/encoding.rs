use near_lockup::{ResponseResult, ResponseValue, ValueError, VestingSchedule, VestingScheduleWithSalt};

#[test]
fn hash_preimage_is_borsh_layout() {
    let v = VestingScheduleWithSalt {
        vesting_schedule: VestingSchedule {
            start_timestamp: 1,
            cliff_timestamp: 0x0102,
            end_timestamp: u64::MAX,
        },
        salt: vec![0xaa, 0xbb, 0xcc],
    };
    let mut expected = vec![1, 0, 0, 0, 0, 0, 0, 0, 2, 1, 0, 0, 0, 0, 0, 0];
    expected.extend_from_slice(&[0xff; 8]);
    expected.extend_from_slice(&[3, 0, 0, 0, 0xaa, 0xbb, 0xcc]);
    assert_eq!(v.hash_preimage(), expected);
}

#[test]
fn hash_preimage_with_empty_salt() {
    let v = VestingScheduleWithSalt {
        vesting_schedule: VestingSchedule { start_timestamp: 0, cliff_timestamp: 0, end_timestamp: 5 },
        salt: vec![],
    };
    let bytes = v.hash_preimage();
    assert_eq!(bytes.len(), 28);
    assert_eq!(&bytes[16..], &[5, 0, 0, 0, 0, 0, 0, 0, 0, 0, 0, 0]);
}

fn value(text: &str) -> ResponseValue {
    ResponseValue { key: "U1RBVEU=".to_string(), proof: vec![], value: text.to_string() }
}

#[test]
fn stored_value_is_decoded() {
    assert_eq!(value("aGVsbG8=").decoded_value(), Ok(b"hello".to_vec()));
    assert_eq!(value("").decoded_value(), Ok(vec![]));
}

#[test]
fn invalid_stored_value_is_rejected() {
    assert_eq!(value("a*b=").decoded_value(), Err(ValueError::InvalidBase64));
}

#[test]
fn first_value_of_result() {
    let mut r = ResponseResult {
        block_hash: "h".to_string(),
        block_height: 3,
        proof: vec![],
        values: vec![],
    };
    assert_eq!(r.first_value(), None);
    r.values.push(value("AA=="));
    r.values.push(value("AQ=="));
    assert_eq!(r.first_value(), Some(&value("AA==")));
}
