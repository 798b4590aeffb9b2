use ray_marching_material::layout::{
    schema, Field, FieldKind, FieldLayout, BLOCK_ALIGN, BLOCK_SIZE, FIELD_COUNT, UNIFORM_BINDING,
};

fn declared() -> Vec<(Field, &'static str, usize, usize, usize)> {
    vec![
        (Field::CameraPosition, "camera_position", 0, 12, 16),
        (Field::CameraForward, "camera_forward", 16, 12, 16),
        (Field::CameraHorizontal, "camera_horizontal", 32, 12, 16),
        (Field::CameraVertical, "camera_vertical", 48, 12, 16),
        (Field::AspectRatio, "aspect_ratio", 60, 4, 4),
        (Field::Power, "power", 64, 4, 4),
        (Field::MaxIterations, "max_iterations", 68, 4, 4),
        (Field::Bailout, "bailout", 72, 4, 4),
        (Field::NumSteps, "num_steps", 76, 4, 4),
        (Field::MinDist, "min_dist", 80, 4, 4),
        (Field::MaxDist, "max_dist", 84, 4, 4),
        (Field::Zoom, "zoom", 88, 4, 4),
    ]
}

#[test]
fn block_is_96_bytes_at_binding_0() {
    assert_eq!(BLOCK_SIZE, 96);
    assert_eq!(BLOCK_ALIGN, 16);
    assert_eq!(FIELD_COUNT, 12);
    assert_eq!(UNIFORM_BINDING, 0);
    assert_eq!(BLOCK_SIZE % BLOCK_ALIGN, 0);
}

#[test]
fn every_field_has_its_declared_offset_size_and_alignment() {
    for (field, name, offset, size, align) in declared() {
        assert_eq!(field.name(), name);
        assert_eq!(field.offset(), offset, "{}", name);
        assert_eq!(field.size(), size, "{}", name);
        assert_eq!(field.align(), align, "{}", name);
        assert_eq!(field.layout(), FieldLayout { field, offset, size, align });
    }
}

#[test]
fn kinds_have_the_uniform_sizes() {
    assert_eq!(FieldKind::Vector.size(), 12);
    assert_eq!(FieldKind::Vector.align(), 16);
    assert_eq!(FieldKind::Float.size(), 4);
    assert_eq!(FieldKind::Float.align(), 4);
    assert_eq!(FieldKind::Unsigned.size(), 4);
    assert_eq!(FieldKind::Unsigned.align(), 4);
    assert_eq!(Field::CameraForward.kind(), FieldKind::Vector);
    assert_eq!(Field::Power.kind(), FieldKind::Float);
    assert_eq!(Field::MaxIterations.kind(), FieldKind::Unsigned);
    assert_eq!(Field::NumSteps.kind(), FieldKind::Unsigned);
}

#[test]
fn index_and_from_index_are_inverse() {
    for (place, (field, _, _, _, _)) in declared().into_iter().enumerate() {
        assert_eq!(field.index(), place);
        assert_eq!(Field::from_index(place), Some(field));
    }
    assert_eq!(Field::from_index(12), None);
    assert_eq!(Field::from_index(usize::MAX), None);
}

#[test]
fn schema_is_the_table_in_declared_order() {
    let rows = schema();
    let want: Vec<FieldLayout> = declared()
        .into_iter()
        .map(|(field, _, offset, size, align)| FieldLayout { field, offset, size, align })
        .collect();
    assert_eq!(rows, want);
}

#[test]
fn offsets_follow_the_layout_rules() {
    let rows = schema();
    let mut end = 0usize;
    for row in &rows {
        let aligned = (end + row.align - 1) / row.align * row.align;
        assert_eq!(row.offset, aligned);
        end = row.offset + row.size;
    }
    assert_eq!((end + BLOCK_ALIGN - 1) / BLOCK_ALIGN * BLOCK_ALIGN, BLOCK_SIZE);
}

#[test]
fn fields_do_not_overlap_and_leave_sixteen_bytes_of_padding() {
    let mut used = [false; 96];
    for row in schema() {
        for byte in row.offset..row.offset + row.size {
            assert!(!used[byte]);
            used[byte] = true;
        }
    }
    let padding: Vec<usize> = (0..96).filter(|byte| !used[*byte]).collect();
    assert_eq!(padding, vec![12, 13, 14, 15, 28, 29, 30, 31, 44, 45, 46, 47, 92, 93, 94, 95]);
}
