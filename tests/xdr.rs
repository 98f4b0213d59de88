use nfs_mamont::xdr::{
    get_bool, get_fixed, get_i32, get_i64, get_opaque, get_string, get_u32, get_u32s, get_u64,
    padding_len, put_fixed, put_opaque, put_u32, put_u32s, Serialize,
};

/// Encodes at every offset of a buffer that already holds some bytes, checks
/// the alignment, and decodes back.
fn check<T, F>(value: &T, decode: F)
where
    T: Serialize + PartialEq + std::fmt::Debug,
    F: Fn(&[u8], usize) -> Option<(T, usize)>,
{
    for capacity in 0..32usize {
        for exist in 0..capacity {
            let mut buf = Vec::with_capacity(capacity);
            buf.resize(exist, 0u8);
            value.serialize(&mut buf);
            assert_eq!((buf.len() - exist) % 4, 0);
            let (back, end) = decode(&buf, exist).expect("cannot deserialize");
            assert_eq!(value, &back);
            assert_eq!(end, buf.len());
        }
    }
}

#[test]
fn test_scalar_bijection() {
    for v in [true, false] {
        check(&v, get_bool);
    }
    for v in [i32::MIN, -1i32, 0i32, 1i32, i32::MAX] {
        check(&v, get_i32);
    }
    for v in [i64::MIN, -1i64, 0i64, 1i64, i64::MAX] {
        check(&v, get_i64);
    }
    for v in [u32::MIN, 0u32, 1u32, 2u32, u32::MAX] {
        check(&v, get_u32);
    }
    for v in [u64::MIN, 0u64, 1u64, 2u64, u64::MAX] {
        check(&v, get_u64);
    }
}

fn check_fixed_bytes(data: &[u8]) {
    for exist in 0..8usize {
        let mut buf = vec![0xAAu8; exist];
        put_fixed(&mut buf, data);
        assert_eq!((buf.len() - exist) % 4, 0);
        assert_eq!(buf.len() - exist, data.len() + padding_len(data.len()));
        let (back, end) = get_fixed(&buf, exist, data.len()).expect("cannot deserialize");
        assert_eq!(back, data);
        assert_eq!(end, buf.len());
    }
}

fn check_fixed_values<T, F>(values: &[T], decode: F)
where
    T: Serialize + PartialEq + std::fmt::Debug,
    F: Fn(&[u8], usize) -> Option<(T, usize)>,
{
    let mut buf = Vec::new();
    for v in values {
        v.serialize(&mut buf);
    }
    let mut pos = 0;
    for v in values {
        let (back, p) = decode(&buf, pos).expect("cannot deserialize");
        assert_eq!(&back, v);
        pos = p;
    }
    assert_eq!(pos, buf.len());
}

#[test]
fn test_array_bijection() {
    check_fixed_bytes(&[1u8]);
    check_fixed_bytes(&[1u8, 2u8, 3u8]);
    check_fixed_bytes(&[1u8, 2u8, 3u8, 4u8, 5u8, 6u8]);
    check_fixed_values(&[0u32], get_u32);
    check_fixed_values(&[1u32, 2u32, 3u32], get_u32);
    check_fixed_values(&[1u64, 2u64, 3u64], get_u64);
    check_fixed_values(&[1u64, 2u64, 3u64, 4u64], get_u64);
    check_fixed_values(&[1u64, 2u64, 3u64, 4u64, 5u64], get_u64);
}

#[test]
fn test_str_bijection() {
    for s in ["", "abc1234+-", "abc"] {
        let mut buf = Vec::new();
        put_opaque(&mut buf, s.as_bytes());
        assert_eq!(buf.len() % 4, 0);
        let (back, end) = get_string(&buf, 0).expect("cannot deserialize");
        assert_eq!(back, s.as_bytes());
        assert_eq!(end, buf.len());
    }
}

#[test]
fn test_vec_bijection() {
    let byte_vecs: [Vec<u8>; 4] = [vec![], vec![1u8], vec![1u8, 2u8, 3u8], vec![1u8, 2u8, 3u8, 4u8]];
    for v in byte_vecs.iter() {
        let mut buf = Vec::new();
        put_opaque(&mut buf, v);
        let (back, end) = get_opaque(&buf, 0).expect("cannot deserialize");
        assert_eq!(&back, v);
        assert_eq!(end, buf.len());
    }
    let word_vecs: [Vec<u32>; 4] = [vec![], vec![1u32], vec![1u32, 2u32, 3u32], vec![1u32, 2u32, 3u32, 4u32]];
    for v in word_vecs.iter() {
        let mut buf = Vec::new();
        put_u32s(&mut buf, v);
        let (back, end) = get_u32s(&buf, 0).expect("cannot deserialize");
        assert_eq!(&back, v);
        assert_eq!(end, buf.len());
    }
    let wide_vecs: [Vec<u64>; 4] = [vec![], vec![1u64], vec![1u64, 2u64, 3u64], vec![1u64, 2u64, 3u64, 4u64]];
    for v in wide_vecs.iter() {
        let mut buf = Vec::new();
        put_u32(&mut buf, v.len() as u32);
        for x in v {
            x.serialize(&mut buf);
        }
        let (n, mut pos) = get_u32(&buf, 0).unwrap();
        assert_eq!(n as usize, v.len());
        for x in v {
            let (y, p) = get_u64(&buf, pos).unwrap();
            assert_eq!(*x, y);
            pos = p;
        }
        assert_eq!(pos, buf.len());
    }
}

#[test]
fn opaque_boundary_sizes() {
    let mut empty = Vec::new();
    put_opaque(&mut empty, &[]);
    assert_eq!(empty, vec![0, 0, 0, 0]);
    let mut four = Vec::new();
    put_opaque(&mut four, &[1, 2, 3, 4]);
    assert_eq!(four, vec![0, 0, 0, 4, 1, 2, 3, 4]);
    let mut three = Vec::new();
    put_opaque(&mut three, &[1, 2, 3]);
    assert_eq!(three, vec![0, 0, 0, 3, 1, 2, 3, 0]);
    let mut fixed = Vec::new();
    put_fixed(&mut fixed, &[9, 9]);
    assert_eq!(fixed, vec![9, 9, 0, 0]);
    for l in 0..40usize {
        let data = vec![7u8; l];
        let mut buf = Vec::new();
        put_opaque(&mut buf, &data);
        assert_eq!(buf.len(), 4 + l + (4 - l % 4) % 4);
    }
}

#[test]
fn padding_does_not_influence_decoding() {
    let bytes = vec![0, 0, 0, 3, b'a', b'b', b'c', 0xFF, 0, 0, 0, 9];
    let (v, p) = get_opaque(&bytes, 0).unwrap();
    assert_eq!(v, b"abc");
    assert_eq!(p, 8);
    assert_eq!(get_u32(&bytes, p).unwrap().0, 9);
}

#[test]
fn decode_rejections() {
    assert!(get_bool(&[0, 0, 0, 2], 0).is_none());
    assert!(get_u32(&[0, 0, 1], 0).is_none());
    assert!(get_opaque(&[0, 0, 0, 5, 1, 2, 3, 4], 0).is_none());
    assert!(get_opaque(&[0, 0, 0, 3, 1, 2, 3], 0).is_none());
    assert!(get_string(&[0, 0, 0, 1, 0xC3, 0, 0, 0], 0).is_none());
    assert_eq!(padding_len(0), 0);
    assert_eq!(padding_len(5), 3);
}
