use cgmath::Matrix;
use cgmath::Matrix4;
use cgmath::SquareMatrix;
use cgmath::Transform;
use oscuras::camera::Camera;
use oscuras::camera::Optics;
use oscuras::camera::CAMERA_STRIDE;
use oscuras::camera::CAMERA_WORDS;
use oscuras::data_types::GeomType;
use oscuras::data_types::Geometry;
use oscuras::data_types::Mat4;
use oscuras::data_types::GEOMETRY_STRIDE;
use oscuras::data_types::GEOMETRY_WORDS;
use oscuras::error::ConstructionError;
use oscuras::scene::Primitive;
use oscuras::scene::Scene;
use oscuras::scene::MINUS_ONE;
use oscuras::scene::ONE;

fn cross(a: [f32; 3], b: [f32; 3]) -> [f32; 3] {
    [a[1] * b[2] - a[2] * b[1], a[2] * b[0] - a[0] * b[2], a[0] * b[1] - a[1] * b[0]]
}

fn dot(a: [f32; 3], b: [f32; 3]) -> f32 {
    a[0] * b[0] + a[1] * b[1] + a[2] * b[2]
}

fn optics_for(width: u32, height: u32) -> Optics {
    let forward = [0f32, 0f32, 1f32];
    let right = cross([0f32, 1f32, 0f32], forward);
    let up = cross(right, forward);
    let aspect = width as f32 / height as f32;
    let fovy = 45f32;
    let half_y = (fovy / 2.0).to_radians().tan();
    let half_x = half_y * aspect;
    let fovx = 2.0 * half_x.atan().to_degrees();
    Optics {
        pixel_length: [
            (2.0 * half_x / width as f32).to_bits(),
            (2.0 * half_y / height as f32).to_bits(),
        ],
        position: [0f32.to_bits(); 3],
        aspect_ratio: aspect.to_bits(),
        at: forward.map(f32::to_bits),
        fovx: fovx.to_bits(),
        up: up.map(f32::to_bits),
        fovy: fovy.to_bits(),
        right: right.map(f32::to_bits),
        view_dir: forward.map(f32::to_bits),
    }
}

fn to_bits(m: Matrix4<f32>) -> Mat4 {
    let a: [[f32; 4]; 4] = m.into();
    Mat4::from_cols(a.map(|c| c.map(|x| x.to_bits())))
}

fn to_floats(m: &Mat4) -> Matrix4<f32> {
    Matrix4::from(m.cols.map(|c| c.map(f32::from_bits)))
}

#[test]
fn camera_rejects_zero_width() {
    assert_eq!(
        Camera::new(0, 480, optics_for(1, 480)).err(),
        Some(ConstructionError::InvalidResolution)
    );
}

#[test]
fn camera_rejects_zero_height() {
    assert_eq!(
        Camera::new(640, 0, optics_for(640, 1)).err(),
        Some(ConstructionError::InvalidResolution)
    );
}

#[test]
fn camera_rejects_zero_by_zero() {
    assert_eq!(
        Camera::new(0, 0, optics_for(1, 1)).err(),
        Some(ConstructionError::InvalidResolution)
    );
}

#[test]
fn camera_keeps_resolution() {
    let camera = Camera::new(1920, 1080, optics_for(1920, 1080)).unwrap();
    assert_eq!(camera.res_x(), 1920);
    assert_eq!(camera.res_y(), 1080);
    let one_by_one = Camera::new(1, 1, optics_for(1, 1)).unwrap();
    assert_eq!(one_by_one.res_x(), 1);
    assert_eq!(one_by_one.res_y(), 1);
}

#[test]
fn camera_record_is_laid_out_in_field_order() {
    let optics = Optics {
        pixel_length: [10, 11],
        position: [20, 21, 22],
        aspect_ratio: 30,
        at: [40, 41, 42],
        fovx: 50,
        up: [60, 61, 62],
        fovy: 70,
        right: [80, 81, 82],
        view_dir: [90, 91, 92],
    };
    let camera = Camera::new(640, 480, optics).unwrap();
    assert_eq!(
        camera.words(),
        vec![
            640, 480, 10, 11, 20, 21, 22, 30, 40, 41, 42, 50, 60, 61, 62, 70, 80, 81, 82, 0, 90,
            91, 92
        ]
    );
    assert_eq!(camera.words().len(), CAMERA_WORDS);
    assert_eq!(4 * CAMERA_WORDS, CAMERA_STRIDE);
}

#[test]
fn camera_carries_floats_unchanged() {
    let optics = optics_for(1920, 1080);
    let camera = Camera::new(1920, 1080, optics).unwrap();
    let words = camera.words();
    let aspect = f32::from_bits(words[7]);
    let fovx = f32::from_bits(words[11]);
    let fovy = f32::from_bits(words[15]);
    assert_eq!(fovy, 45.0);
    assert_eq!(aspect, 1920.0 / 1080.0);
    let lhs = (fovx / 2.0).to_radians().tan();
    let rhs = (fovy / 2.0).to_radians().tan() * aspect;
    assert!((lhs - rhs).abs() < 1e-5);
    assert_eq!(camera.optics().fovx, optics.fovx);
    let px = f32::from_bits(words[2]);
    let py = f32::from_bits(words[3]);
    assert!((px * 1920.0 - 2.0 * rhs).abs() < 1e-5);
    assert!((py * 1080.0 - 2.0 * (fovy / 2.0).to_radians().tan()).abs() < 1e-5);
    let forward = [words[20], words[21], words[22]].map(f32::from_bits);
    let up = [words[12], words[13], words[14]].map(f32::from_bits);
    let right = [words[16], words[17], words[18]].map(f32::from_bits);
    assert_eq!(dot(forward, up), 0.0);
    assert_eq!(dot(forward, right), 0.0);
    assert_eq!(dot(up, right), 0.0);
}

#[test]
fn default_scene_is_one_sphere() {
    let scene = Scene::new();
    assert_eq!(scene.geometry.len(), 1);
    assert_eq!(scene.geometry[0].ty, GeomType::Sphere);
    assert_eq!(
        scene.geometry[0].transf.cols,
        [[ONE, 0, 0, 0], [0, ONE, 0, 0], [0, 0, ONE, 0], [0, 0, ONE, ONE]]
    );
    assert_eq!(
        scene.geometry[0].inverse.cols,
        [[ONE, 0, 0, 0], [0, ONE, 0, 0], [0, 0, ONE, 0], [0, 0, MINUS_ONE, ONE]]
    );
    assert_eq!(f32::from_bits(ONE), 1.0);
    assert_eq!(f32::from_bits(MINUS_ONE), -1.0);
}

#[test]
fn default_scene_inverse_is_the_inverse() {
    let scene = Scene::new();
    let g = &scene.geometry[0];
    let product = to_floats(&g.transf) * to_floats(&g.inverse);
    let identity = Matrix4::<f32>::identity();
    for c in 0..4 {
        for r in 0..4 {
            assert!((product[c][r] - identity[c][r]).abs() < 1e-6);
        }
    }
    let expected = to_floats(&g.inverse).transpose();
    let got = to_floats(&g.transp_inv);
    for c in 0..4 {
        for r in 0..4 {
            assert!((got[c][r] - expected[c][r]).abs() < 1e-6);
        }
    }
    assert_eq!(g.transp_inv.cols, to_bits(expected).cols);
}

#[test]
fn default_scene_agrees_with_translation_and_scale() {
    let translate = Matrix4::from_translation(cgmath::vec3(0f32, 0f32, 1f32));
    let scale = Matrix4::from_scale(1f32);
    let transf = scale * translate;
    let inverse = transf.inverse_transform().unwrap();
    let scene = Scene::new();
    assert_eq!(to_floats(&scene.geometry[0].transf), transf);
    assert_eq!(to_floats(&scene.geometry[0].inverse), inverse);
    assert_eq!(to_floats(&scene.geometry[0].transp_inv), inverse.transpose());
}

#[test]
fn transpose_exchanges_rows_and_columns() {
    let m = Mat4::from_cols([[0, 1, 2, 3], [4, 5, 6, 7], [8, 9, 10, 11], [12, 13, 14, 15]]);
    let t = m.transpose();
    assert_eq!(t.cols, [[0, 4, 8, 12], [1, 5, 9, 13], [2, 6, 10, 14], [3, 7, 11, 15]]);
    assert_eq!(t.transpose().cols, m.cols);
}

#[test]
fn matrix_words_go_column_by_column() {
    let m = Mat4::from_cols([[0, 1, 2, 3], [4, 5, 6, 7], [8, 9, 10, 11], [12, 13, 14, 15]]);
    let mut out = vec![99];
    m.write_words(&mut out);
    assert_eq!(out, vec![99, 0, 1, 2, 3, 4, 5, 6, 7, 8, 9, 10, 11, 12, 13, 14, 15]);
}

#[test]
fn geometry_fails_without_inverse() {
    let m = Mat4::from_cols([[0; 4]; 4]);
    assert_eq!(
        Geometry::new(GeomType::Box, m, None).err(),
        Some(ConstructionError::SingularTransform)
    );
}

#[test]
fn geometry_takes_transpose_of_inverse() {
    let transf = Matrix4::from_nonuniform_scale(2f32, 4f32, 8f32)
        * Matrix4::from_translation(cgmath::vec3(1f32, 2f32, 3f32));
    let inverse = transf.inverse_transform();
    let g = Geometry::new(GeomType::Triangle, to_bits(transf), inverse.map(to_bits)).unwrap();
    assert_eq!(g.ty, GeomType::Triangle);
    assert_eq!(g.transf.cols, to_bits(transf).cols);
    assert_eq!(g.inverse.cols, to_bits(inverse.unwrap()).cols);
    assert_eq!(g.transp_inv.cols, to_bits(inverse.unwrap().transpose()).cols);
    assert_ne!(g.transp_inv.cols, g.inverse.cols);
}

#[test]
fn geometry_record_has_three_matrices_and_a_tag() {
    let a = Mat4::from_cols([[1; 4]; 4]);
    let b = Mat4::from_cols([[2, 3, 4, 5]; 4]);
    let g = Geometry::new(GeomType::Triangle, a, Some(b)).unwrap();
    let mut out = Vec::new();
    g.write_words(&mut out);
    assert_eq!(out.len(), GEOMETRY_WORDS);
    assert_eq!(4 * GEOMETRY_WORDS, GEOMETRY_STRIDE);
    assert_eq!(&out[0..16], &[1; 16]);
    assert_eq!(&out[16..20], &[2, 3, 4, 5]);
    assert_eq!(&out[32..36], &[2, 2, 2, 2]);
    assert_eq!(&out[44..48], &[5, 5, 5, 5]);
    assert_eq!(out[48], 4);
}

#[test]
fn geometry_kinds_have_their_tags() {
    assert_eq!(GeomType::Sphere.bits(), 1);
    assert_eq!(GeomType::Box.bits(), 2);
    assert_eq!(GeomType::Triangle.bits(), 4);
    assert_eq!(GeomType::from_bits(1), Some(GeomType::Sphere));
    assert_eq!(GeomType::from_bits(2), Some(GeomType::Box));
    assert_eq!(GeomType::from_bits(4), Some(GeomType::Triangle));
    assert_eq!(GeomType::from_bits(0), None);
    assert_eq!(GeomType::from_bits(3), None);
}

#[test]
fn scene_keeps_the_order_of_its_primitives() {
    let kinds = [GeomType::Triangle, GeomType::Sphere, GeomType::Box];
    let mut primitives = Vec::new();
    for (i, ty) in kinds.iter().enumerate() {
        let transf = Matrix4::from_translation(cgmath::vec3(i as f32, 0f32, 1f32));
        primitives.push(Primitive {
            ty: *ty,
            transf: to_bits(transf),
            inverse: transf.inverse_transform().map(to_bits),
        });
    }
    let scene = Scene::from_primitives(&primitives).unwrap();
    assert_eq!(scene.geometry.len(), 3);
    for i in 0..3 {
        assert_eq!(scene.geometry[i].ty, kinds[i]);
        assert_eq!(scene.geometry[i].transf.cols, primitives[i].transf.cols);
        assert_eq!(scene.geometry[i].inverse.cols, primitives[i].inverse.unwrap().cols);
        assert_eq!(
            scene.geometry[i].transp_inv.cols,
            primitives[i].inverse.unwrap().transpose().cols
        );
    }
    let words = scene.words();
    assert_eq!(words.len(), 3 * GEOMETRY_WORDS);
    assert_eq!(words[48], 4);
    assert_eq!(words[49 + 48], 1);
    assert_eq!(words[98 + 48], 2);
    assert_eq!(f32::from_bits(words[49 + 12]), 1.0);
    assert_eq!(f32::from_bits(words[98 + 12]), 2.0);
}

#[test]
fn scene_fails_on_a_singular_transform() {
    let good = Matrix4::from_translation(cgmath::vec3(0f32, 0f32, 1f32));
    let flat = Matrix4::from_nonuniform_scale(1f32, 0f32, 1f32);
    assert!(flat.inverse_transform().is_none());
    let primitives = vec![
        Primitive {
            ty: GeomType::Sphere,
            transf: to_bits(good),
            inverse: good.inverse_transform().map(to_bits),
        },
        Primitive {
            ty: GeomType::Box,
            transf: to_bits(flat),
            inverse: flat.inverse_transform().map(to_bits),
        },
    ];
    assert_eq!(
        Scene::from_primitives(&primitives).err(),
        Some(ConstructionError::SingularTransform)
    );
}

#[test]
fn empty_scene_is_a_scene() {
    let scene = Scene::from_primitives(&Vec::new()).unwrap();
    assert_eq!(scene.geometry.len(), 0);
    assert_eq!(scene.words().len(), 0);
}

#[test]
fn errors_have_their_texts() {
    assert_eq!(
        ConstructionError::UnsupportedBindingUsage.message(),
        "Trying to make a Bind Group Entry with an unsupported buffer type"
    );
    assert_eq!(
        ConstructionError::InvalidResolution.message(),
        "resolution must be positive in both dimensions"
    );
    assert_eq!(ConstructionError::SingularTransform.message(), "transform is not invertible");
}
