use scene_render::binder::{
    accessor_byte_range, interleave_vertex_attributes, plan_texture_uploads, vertex_streams_fit,
    LoadError, TextureBinding,
};
use scene_render::renderer::Extent;
use scene_render::texture::{bloom_mip_extents, mip_level_count};

#[test]
fn every_texture_is_uploaded_once_in_source_order() {
    let plan = plan_texture_uploads(5, &vec![Some(4), None, Some(1), Some(4), Some(0), None]).unwrap();
    assert_eq!(plan.uploads, vec![0, 1, 2, 3, 4]);
    assert_eq!(
        plan.bindings,
        vec![
            TextureBinding::Uploaded(4),
            TextureBinding::Fallback,
            TextureBinding::Uploaded(1),
            TextureBinding::Uploaded(4),
            TextureBinding::Uploaded(0),
            TextureBinding::Fallback,
        ]
    );
    let reversed = plan_texture_uploads(2, &vec![Some(1), Some(0)]).unwrap();
    assert_eq!(reversed.uploads, vec![0, 1]);
    let unused = plan_texture_uploads(3, &vec![]).unwrap();
    assert_eq!(unused.uploads, vec![0, 1, 2]);
    assert!(unused.bindings.is_empty());
    assert!(matches!(
        plan_texture_uploads(2, &vec![None, Some(2)]),
        Err(LoadError::TextureOutOfRange)
    ));
}

#[test]
fn accessor_ranges_are_checked() {
    // 3 positions of 12 bytes, tightly packed, 8 bytes into a view at 16.
    assert_eq!(accessor_byte_range(100, 16, 60, 8, 3, 12, None), Ok((24, 60)));
    // Interleaved with a stride of 32: 2 strides and one element.
    assert_eq!(accessor_byte_range(200, 0, 80, 0, 3, 12, Some(32)), Ok((0, 76)));
    assert_eq!(accessor_byte_range(200, 0, 80, 8, 3, 12, Some(32)), Err(LoadError::AccessorOutOfRange));
    assert_eq!(accessor_byte_range(50, 16, 60, 0, 1, 4, None), Err(LoadError::BufferViewOutOfRange));
    assert_eq!(accessor_byte_range(100, 0, 60, 0, 2, 12, Some(8)), Err(LoadError::StrideTooSmall));
    assert_eq!(accessor_byte_range(100, 0, 60, 60, 0, 12, None), Ok((60, 60)));
}

#[test]
fn mip_levels_follow_the_longer_side() {
    assert_eq!(mip_level_count(1024, 512, true), 9);
    assert_eq!(mip_level_count(300, 1000, true), 8);
    assert_eq!(mip_level_count(1024, 512, false), 1);
    assert_eq!(mip_level_count(2, 1, true), 1);
    assert_eq!(mip_level_count(3, 3, true), 1);
    assert_eq!(mip_level_count(4, 1, true), 1);
    assert_eq!(mip_level_count(8, 1, true), 2);
    assert_eq!(mip_level_count(0, 0, true), 1);
}

#[test]
fn bloom_levels_halve_down_to_one_pixel() {
    let extents = bloom_mip_extents(Extent { width: 10, height: 3 }, 5);
    assert_eq!(
        extents,
        vec![
            Extent { width: 10, height: 3 },
            Extent { width: 5, height: 1 },
            Extent { width: 2, height: 1 },
            Extent { width: 1, height: 1 },
            Extent { width: 1, height: 1 },
        ]
    );
}

#[test]
fn vertex_attributes_are_interleaved_per_vertex() {
    let positions = vec![1, 2, 3, 4, 5, 6];
    let uvs = vec![10, 20, 30, 40];
    let streams = vec![positions, uvs];
    let sizes = vec![3, 2];
    assert!(vertex_streams_fit(&streams, &sizes, 2));
    assert!(!vertex_streams_fit(&streams, &sizes, 3));
    assert!(!vertex_streams_fit(&streams, &vec![3], 2));
    assert_eq!(
        interleave_vertex_attributes(&streams, &sizes, 2),
        vec![1, 2, 3, 10, 20, 4, 5, 6, 30, 40]
    );
    assert!(interleave_vertex_attributes(&vec![], &vec![], 4).is_empty());
}
