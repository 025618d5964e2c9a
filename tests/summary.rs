use tfrecord::{EventInit, Image, SummaryInit, ValueKind};

fn image(height: i32) -> Image {
    Image { height, width: 2, colorspace: 3, encoded_image_string: vec![1, 2, 3] }
}

#[test]
fn scalar_summary_has_one_plain_value() {
    let s = SummaryInit::new("loss".to_string()).build_scalar(0.25f32.to_bits()).unwrap();
    assert_eq!(s.value.len(), 1);
    let v = &s.value[0];
    assert_eq!(v.tag, "loss");
    assert_eq!(v.node_name, "");
    assert!(v.metadata.is_none());
    match &v.value {
        Some(ValueKind::SimpleValue(bits)) => assert_eq!(f32::from_bits(*bits), 0.25),
        other => panic!("unexpected payload {:?}", other),
    }
}

#[test]
fn text_summary_is_a_string_tensor() {
    let s = SummaryInit::new("note".to_string()).build_string("hi".to_string()).unwrap();
    assert_eq!(s.value.len(), 1);
    let v = &s.value[0];
    assert_eq!(v.tag, "note");
    let m = v.metadata.as_ref().unwrap();
    assert_eq!(m.plugin_data.as_ref().unwrap().plugin_name, "text");
    assert_eq!(m.summary_description, "hi");
    assert_eq!(m.display_name, "");
    match &v.value {
        Some(ValueKind::Tensor(t)) => {
            assert_eq!(t.dtype, tfrecord::proto::DT_STRING);
            assert_eq!(t.tensor_shape.dim.len(), 1);
            assert_eq!(t.tensor_shape.dim[0].size, 1);
            assert_eq!(t.string_val, vec![b"hi".to_vec()]);
        }
        other => panic!("unexpected payload {:?}", other),
    }
}

#[test]
fn one_image_is_tagged_image() {
    let s = SummaryInit::new("pics".to_string()).build_image_list(vec![image(1)]).unwrap();
    assert_eq!(s.value.len(), 1);
    assert_eq!(s.value[0].tag, "pics/image");
}

#[test]
fn three_images_are_tagged_by_index() {
    let s = SummaryInit::new("pics".to_string())
        .build_image_list(vec![image(1), image(2), image(3)])
        .unwrap();
    let tags: Vec<&str> = s.value.iter().map(|v| v.tag.as_str()).collect();
    assert_eq!(tags, vec!["pics/image/0", "pics/image/1", "pics/image/2"]);
    for (i, v) in s.value.iter().enumerate() {
        match &v.value {
            Some(ValueKind::Image(img)) => assert_eq!(img.height, i as i32 + 1),
            other => panic!("unexpected payload {:?}", other),
        }
    }
}

#[test]
fn eleven_images_use_two_digit_index() {
    let images: Vec<Image> = (0..11).map(image).collect();
    let s = SummaryInit::new("p".to_string()).build_image_list(images).unwrap();
    assert_eq!(s.value[10].tag, "p/image/10");
}

#[test]
fn empty_image_list_gives_no_values() {
    let s = SummaryInit::new("pics".to_string()).build_image_list(Vec::new()).unwrap();
    assert!(s.value.is_empty());
}

#[test]
fn given_wall_time_is_kept() {
    let e = EventInit::new(3, 12.5f64.to_bits()).build_empty(99.0f64.to_bits());
    assert_eq!(f64::from_bits(e.wall_time), 12.5);
    assert_eq!(e.step, 3);
    assert!(e.summary.is_none());
}

#[test]
fn missing_wall_time_is_taken_at_build() {
    let before = std::time::SystemTime::now()
        .duration_since(std::time::UNIX_EPOCH)
        .unwrap()
        .as_secs_f64();
    let e = EventInit::with_step(7).build_empty(before.to_bits());
    let now = std::time::SystemTime::now()
        .duration_since(std::time::UNIX_EPOCH)
        .unwrap()
        .as_secs_f64();
    assert!((now - f64::from_bits(e.wall_time)).abs() < 1.0);
    assert_eq!(e.step, 7);
}

#[test]
fn step_converts_into_event_init() {
    let init: EventInit = 4i64.into();
    assert_eq!(init, EventInit::with_step(4));
}
