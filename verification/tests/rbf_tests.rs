use rbf_interp::{rbf_interpolation, Bbox, Kernel, PtValue, Rbf, RbfError, Scalar};

fn s(v: f64) -> Scalar {
    Scalar::from_bits(v.to_bits())
}

fn f(sc: Scalar) -> f64 {
    f64::from_bits(sc.to_bits())
}

fn almost_equal(a: f64, b: f64, epsilon: f64) -> bool {
    let diff = (a - b).abs();
    if a == b {
        true
    } else if a == 0.0 || b == 0.0 || diff < f64::MIN_POSITIVE {
        diff < (epsilon * f64::MIN_POSITIVE)
    } else {
        (diff / (a.abs() + b.abs()).min(f64::MAX)) < epsilon
    }
}

fn standard_points() -> Vec<PtValue> {
    vec![
        PtValue::new(s(0.0), s(0.0), s(0.0)),
        PtValue::new(s(0.0), s(100.0), s(6.0)),
        PtValue::new(s(75.0), s(25.0), s(3.1)),
        PtValue::new(s(100.0), s(75.0), s(7.4)),
    ]
}

#[test]
fn test_radial_basis_func_linear() {
    let obs_pts = standard_points();
    let rbf = Rbf::new(&obs_pts, "linear", None).unwrap();
    assert_eq!(
        true,
        almost_equal(2.843937337, f(rbf.interp_point((s(0.0), s(50.0)))), 0.0000001)
    );
    assert_eq!(
        true,
        almost_equal(0.754167644, f(rbf.interp_point((s(12.0), s(12.0)))), 0.0000001)
    );
}

#[test]
fn test_radial_basis_func_cubic() {
    let obs_pts = standard_points();
    let rbf = Rbf::new(&obs_pts, "cubic", None).unwrap();
    assert_eq!(
        true,
        almost_equal(0.554789362, f(rbf.interp_point((s(0.0), s(50.0)))), 0.0000001)
    );
    assert_eq!(
        true,
        almost_equal(-0.181785359, f(rbf.interp_point((s(12.0), s(12.0)))), 0.0000001)
    );
}

#[test]
fn test_radial_basis_func_gaussian() {
    let obs_pts = standard_points();
    let rbf = Rbf::new(&obs_pts, "gaussian", None).unwrap();
    assert_eq!(
        true,
        almost_equal(3.494929342, f(rbf.interp_point((s(0.0), s(50.0)))), 0.0000001)
    );
    assert_eq!(
        true,
        almost_equal(0.777143813, f(rbf.interp_point((s(12.0), s(12.0)))), 0.0000001)
    );
}

#[test]
fn reproduction_at_observation_points_every_kernel() {
    let obs_pts = standard_points();
    let names = [
        "linear",
        "cubic",
        "quintic",
        "thin_plate",
        "gaussian",
        "multiquadratic",
        "inverse_multiquadratic",
    ];
    for name in names.iter() {
        let rbf = Rbf::new(&obs_pts, name, None).unwrap();
        for pt in obs_pts.iter() {
            let got = f(rbf.interp_point(pt.get_coordinates()));
            let want = f(pt.get_value());
            assert!(
                (got - want).abs() < 1e-6,
                "kernel {}: got {}, want {}",
                name,
                got,
                want
            );
        }
    }
}

#[test]
fn repeated_evaluation_is_bit_identical() {
    let obs_pts = standard_points();
    let rbf = Rbf::new(&obs_pts, "multiquadratic", None).unwrap();
    let a = rbf.interp_point((s(33.3), s(66.6)));
    let b = rbf.interp_point((s(33.3), s(66.6)));
    assert_eq!(a.to_bits(), b.to_bits());
}

#[test]
fn grid_has_full_coverage_and_spacing() {
    let obs_pts = standard_points();
    let bbox = Bbox::new(s(0.0), s(100.0), s(0.0), s(100.0));
    let reso_x = 4u32;
    let reso_y = 3u32;
    let grid = rbf_interpolation(reso_x, reso_y, &bbox, &obs_pts, "linear", None).unwrap();
    assert_eq!(grid.len(), (reso_x * reso_y) as usize);
    let step_x = 100.0 / 4.0;
    let step_y = 100.0 / 3.0;
    let (x0, y0) = grid[0].get_coordinates();
    assert_eq!(f(x0), 0.0);
    assert_eq!(f(y0), 0.0);
    for i in 0..reso_x {
        for j in 0..reso_y {
            let p = &grid[(i * reso_y + j) as usize];
            let (px, py) = p.get_coordinates();
            assert_eq!(f(px), step_x * f64::from(i));
            assert_eq!(f(py), step_y * f64::from(j));
        }
    }
}

#[test]
fn auto_epsilon_of_two_points_is_their_distance() {
    let obs_pts = vec![
        PtValue::new(s(0.0), s(0.0), s(1.0)),
        PtValue::new(s(10.0), s(0.0), s(2.0)),
    ];
    let rbf = Rbf::new(&obs_pts, "linear", None).unwrap();
    assert_eq!(f(rbf.epsilon), 10.0);
}

#[test]
fn kernels_are_finite_for_nonnegative_r() {
    let kernels = [
        Kernel::Linear,
        Kernel::Cubic,
        Kernel::Quintic,
        Kernel::ThinPlate,
        Kernel::Gaussian,
        Kernel::Multiquadratic,
        Kernel::InverseMultiquadratic,
    ];
    let radii = [0.0, 1e-9, 0.5, 1.0, 2.0, 10.0, 1234.5, 1e8];
    let epsilons = [0.5, 1.0, 10.0, 123.0];
    for k in kernels.iter() {
        for r in radii.iter() {
            for e in epsilons.iter() {
                let out = f(k.apply(s(*r), s(*e)));
                assert!(out.is_finite(), "{:?} at r={} eps={} gave {}", k, r, e, out);
                assert!(!out.is_nan());
            }
        }
    }
}

#[test]
fn thin_plate_is_exactly_zero_at_zero() {
    let out = f(Kernel::ThinPlate.apply(s(0.0), s(1.0)));
    assert_eq!(out, 0.0);
}

#[test]
fn kernel_values_match_their_formulas() {
    let r = 2.0f64;
    let e = 4.0f64;
    let q = r / e;
    assert_eq!(f(Kernel::Linear.apply(s(r), s(e))), r);
    assert_eq!(f(Kernel::Cubic.apply(s(r), s(e))), r * r * r);
    assert_eq!(f(Kernel::Quintic.apply(s(r), s(e))), r * r * r * r * r);
    assert_eq!(f(Kernel::ThinPlate.apply(s(r), s(e))), r * r * libm::log(r));
    assert_eq!(
        f(Kernel::Gaussian.apply(s(r), s(e))),
        1.0 / libm::exp(q * q + 1.0)
    );
    assert_eq!(
        f(Kernel::Multiquadratic.apply(s(r), s(e))),
        (q * q + 1.0).sqrt()
    );
    assert_eq!(
        f(Kernel::InverseMultiquadratic.apply(s(r), s(e))),
        1.0 / (q * q + 1.0).sqrt()
    );
}

#[test]
fn nan_results_are_canonical() {
    let out = Kernel::ThinPlate.apply(s(-1.0), s(1.0));
    assert!(f(out).is_nan());
    assert_eq!(out.to_bits(), 0x7ff8_0000_0000_0000);
}

#[test]
fn kernel_lookup_is_exact() {
    assert_eq!(Kernel::from_name("linear"), Some(Kernel::Linear));
    assert_eq!(Kernel::from_name("cubic"), Some(Kernel::Cubic));
    assert_eq!(Kernel::from_name("quintic"), Some(Kernel::Quintic));
    assert_eq!(Kernel::from_name("thin_plate"), Some(Kernel::ThinPlate));
    assert_eq!(Kernel::from_name("gaussian"), Some(Kernel::Gaussian));
    assert_eq!(
        Kernel::from_name("multiquadratic"),
        Some(Kernel::Multiquadratic)
    );
    assert_eq!(
        Kernel::from_name("inverse_multiquadratic"),
        Some(Kernel::InverseMultiquadratic)
    );
    assert_eq!(Kernel::from_name("Linear"), None);
    assert_eq!(Kernel::from_name(""), None);
}

#[test]
fn unknown_kernel_is_reported() {
    let obs_pts = standard_points();
    assert_eq!(
        Rbf::new(&obs_pts, "bogus", None).unwrap_err(),
        RbfError::UnknownKernel
    );
    let bbox = Bbox::new(s(0.0), s(100.0), s(0.0), s(100.0));
    assert_eq!(
        rbf_interpolation(2, 2, &bbox, &obs_pts, "bogus", None).unwrap_err(),
        RbfError::UnknownKernel
    );
}

#[test]
fn zero_resolution_is_reported() {
    let obs_pts = standard_points();
    let bbox = Bbox::new(s(0.0), s(100.0), s(0.0), s(100.0));
    assert_eq!(
        rbf_interpolation(0, 10, &bbox, &obs_pts, "linear", None).unwrap_err(),
        RbfError::InvalidResolution
    );
    assert_eq!(
        rbf_interpolation(10, 0, &bbox, &obs_pts, "linear", None).unwrap_err(),
        RbfError::InvalidResolution
    );
}

#[test]
fn degenerate_epsilon_is_reported() {
    let one_point = vec![PtValue::new(s(1.0), s(2.0), s(3.0))];
    assert_eq!(
        Rbf::new(&one_point, "linear", None).unwrap_err(),
        RbfError::DegenerateEpsilon
    );
}

#[test]
fn singular_system_is_reported() {
    let duplicated = vec![
        PtValue::new(s(1.0), s(1.0), s(3.0)),
        PtValue::new(s(1.0), s(1.0), s(4.0)),
        PtValue::new(s(5.0), s(5.0), s(6.0)),
    ];
    assert_eq!(
        Rbf::new(&duplicated, "linear", None).unwrap_err(),
        RbfError::SingularSystem
    );
    let one_point = vec![PtValue::new(s(1.0), s(2.0), s(3.0))];
    assert_eq!(
        Rbf::new(&one_point, "linear", Some(s(1.0))).unwrap_err(),
        RbfError::SingularSystem
    );
}

#[test]
fn error_descriptions_are_distinct() {
    let all = [
        RbfError::UnknownKernel,
        RbfError::DegenerateEpsilon,
        RbfError::SingularSystem,
        RbfError::InvalidResolution,
    ];
    for (i, a) in all.iter().enumerate() {
        for (j, b) in all.iter().enumerate() {
            assert_eq!(i == j, a.describe() == b.describe());
        }
    }
}

#[test]
fn bbox_from_points_finds_the_extremes() {
    let pts = vec![
        PtValue::new(s(3.0), s(-2.0), s(0.0)),
        PtValue::new(s(-7.5), s(4.0), s(0.0)),
        PtValue::new(s(12.0), s(0.5), s(0.0)),
        PtValue::new(s(0.0), s(-9.25), s(0.0)),
    ];
    let bbox = Bbox::from_points(&pts);
    assert_eq!(f(bbox.min_x), -7.5);
    assert_eq!(f(bbox.max_x), 12.0);
    assert_eq!(f(bbox.min_y), -9.25);
    assert_eq!(f(bbox.max_y), 4.0);
}

#[test]
fn bbox_new_keeps_its_corners() {
    let bbox = Bbox::new(s(-1.0), s(2.0), s(-3.0), s(4.0));
    assert_eq!(f(bbox.min_x), -1.0);
    assert_eq!(f(bbox.max_x), 2.0);
    assert_eq!(f(bbox.min_y), -3.0);
    assert_eq!(f(bbox.max_y), 4.0);
}

#[test]
fn pt_value_accessors() {
    let mut p = PtValue::new(s(1.5), s(-2.5), s(9.0));
    let (x, y) = p.get_coordinates();
    assert_eq!(f(x), 1.5);
    assert_eq!(f(y), -2.5);
    assert_eq!(f(p.get_value()), 9.0);
    p.set_value(s(11.0));
    assert_eq!(f(p.get_value()), 11.0);
    let (tx, ty, tv) = p.get_triplet();
    assert_eq!(f(tx), 1.5);
    assert_eq!(f(ty), -2.5);
    assert_eq!(f(tv), 11.0);
}

#[test]
fn grid_values_match_point_evaluation() {
    let obs_pts = standard_points();
    let bbox = Bbox::from_points(&obs_pts);
    let grid = rbf_interpolation(5, 5, &bbox, &obs_pts, "gaussian", None).unwrap();
    let rbf = Rbf::new(&obs_pts, "gaussian", None).unwrap();
    for p in grid.iter() {
        let direct = rbf.interp_point(p.get_coordinates());
        assert_eq!(direct.to_bits(), p.get_value().to_bits());
    }
}
