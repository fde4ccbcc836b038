use calculus_link::byte_serializable::ByteSerializable;
use calculus_link::codec::{read_field, u64_from_le_bytes, u64_to_le_bytes};
use calculus_link::is_signature_valid;
use calculus_link::point::{Point, PointCoordinate};
use calculus_link::protocol_handler::{Action, Connection, GraphSource};
use calculus_link::request::{
    ComputeRootPayload, EquationMode, EquationModeRaw, FunctionPointsPayload, Method,
    RequestPackage, Selection,
};
use calculus_link::response::{
    bits_are_nan, ComputeRootResponse, FunctionPointsResponse, InitialApproximationsResponse,
    MethodError,
};
use calculus_link::PROTOCOL_SIGNATURE;

#[test]
fn le_bytes_round_trip() {
    let bytes = u64_to_le_bytes(0x0102_0304_0506_0708);
    assert_eq!(bytes, [8, 7, 6, 5, 4, 3, 2, 1]);
    assert_eq!(u64_from_le_bytes(&bytes), 0x0102_0304_0506_0708);
    assert_eq!(bytes, 0x0102_0304_0506_0708u64.to_le_bytes());
}

#[test]
fn read_field_copies_a_slice() {
    let bytes = [1u8, 2, 3, 4, 5];
    let field: [u8; 2] = read_field(&bytes, 2);
    assert_eq!(field, [3, 4]);
}

#[test]
fn signature_found_after_noise() {
    let signature = PROTOCOL_SIGNATURE.to_le_bytes();
    assert!(is_signature_valid(&signature));
    let mut noisy = vec![0xfe, 0xfd, 0xff];
    noisy.extend_from_slice(&signature);
    assert!(is_signature_valid(&noisy));
    assert!(!is_signature_valid(&noisy[..10]));
    assert!(!is_signature_valid(&[]));
    assert!(!is_signature_valid(&[0x7b, 0x00, 0x4f]));
}

#[test]
fn method_bytes() {
    assert_eq!(Method::Chord.to_byte(), 0);
    assert_eq!(Method::Secant.to_byte(), 1);
    assert_eq!(Method::SimpleIterationSingle.to_byte(), 2);
    for byte in 0..3u8 {
        assert_eq!(Method::from_byte(byte).to_byte(), byte);
    }
}

#[test]
fn equation_mode_bytes() {
    let single = EquationMode::Single { method: Method::Secant, equation_number: 3 };
    assert_eq!(single.to_bytes(), [0, 1, 3]);
    assert_eq!(EquationMode::from_bytes(&[0, 1, 3]), single);
    let system = EquationMode::SystemOfEquations { system_number: 2 };
    assert_eq!(system.to_bytes(), [1, 2, 0]);
    assert_eq!(EquationMode::from_bytes(&[1, 2, 0]), system);
    assert_eq!(EquationModeRaw::from_mode(&single), EquationModeRaw::SingleEquation);
    assert_eq!(EquationModeRaw::from_mode(&system), EquationModeRaw::SystemOfEquations);
}

#[test]
fn selection_bytes() {
    let selection = Selection::from_mode(EquationMode::SystemOfEquations { system_number: 4 });
    assert_eq!(selection.mode, EquationModeRaw::SystemOfEquations);
    assert_eq!(selection.index, 4);
    assert_eq!(selection.to_bytes(), [1, 4]);
    assert_eq!(Selection::from_bytes(&[0, 9]).index, 9);
    let payload = FunctionPointsPayload { mode: EquationModeRaw::SingleEquation, equation_number: 5 };
    assert_eq!(payload.to_bytes(), [0, 5]);
    assert_eq!(FunctionPointsPayload::from_bytes(&[0, 5]), payload);
}

#[test]
fn compute_root_request_layout() {
    let epsilon = 1e-4f64.to_bits();
    let request = RequestPackage::ComputeRoot {
        payload: ComputeRootPayload {
            epsilon,
            mode: EquationMode::Single { method: Method::Chord, equation_number: 1 },
        },
    };
    let bytes = request.to_bytes();
    assert_eq!(bytes[0], 2);
    assert_eq!(&bytes[1..9], &epsilon.to_le_bytes());
    assert_eq!(&bytes[9..12], &[0, 0, 1]);
    assert_eq!(&bytes[12..], &[0, 0, 0, 0]);
    assert!(RequestPackage::is_request(&bytes));
    assert_eq!(RequestPackage::from_bytes(&bytes), request);
}

#[test]
fn other_request_layouts() {
    let points = RequestPackage::FunctionPoints {
        payload: FunctionPointsPayload { mode: EquationModeRaw::SystemOfEquations, equation_number: 0 },
    };
    let bytes = points.to_bytes();
    assert_eq!(bytes, [0, 1, 0, 0, 0, 0, 0, 0, 0, 0, 0, 0, 0, 0, 0, 0]);
    assert_eq!(RequestPackage::from_bytes(&bytes), points);
    let initial = RequestPackage::InitialApproximations;
    let bytes = initial.to_bytes();
    assert_eq!(bytes, [1, 0, 0, 0, 0, 0, 0, 0, 0, 0, 0, 0, 0, 0, 0, 0]);
    assert_eq!(RequestPackage::from_bytes(&bytes), initial);
}

#[test]
fn malformed_requests_are_detected() {
    let mut bytes = [0u8; 16];
    bytes[0] = 3;
    assert!(!RequestPackage::is_request(&bytes));
    bytes[0] = 0;
    bytes[1] = 2;
    assert!(!RequestPackage::is_request(&bytes));
    bytes[0] = 2;
    bytes[9] = 0;
    bytes[10] = 3;
    assert!(!RequestPackage::is_request(&bytes));
    bytes[10] = 2;
    assert!(RequestPackage::is_request(&bytes));
}

#[test]
fn point_bytes_are_little_endian() {
    let point = Point::new(1.5f64.to_bits(), (-2.25f64).to_bits());
    let bytes = point.to_bytes();
    assert_eq!(&bytes[..8], &1.5f64.to_le_bytes());
    assert_eq!(&bytes[8..], &(-2.25f64).to_le_bytes());
    assert_eq!(Point::from_bytes(&bytes), point);
    assert_eq!(point.get_coordinate(PointCoordinate::X), 1.5f64.to_bits());
    assert_eq!(point.get_coordinate(PointCoordinate::Y), (-2.25f64).to_bits());
    assert_eq!(Point::zero(), Point::new(0, 0));
}

#[test]
fn initial_approximations_layout() {
    let response = InitialApproximationsResponse { left: (-1.0f64).to_bits(), right: 3.0f64.to_bits() };
    let bytes = response.to_bytes();
    assert_eq!(&bytes[..8], &(-1.0f64).to_le_bytes());
    assert_eq!(&bytes[8..], &3.0f64.to_le_bytes());
    assert_eq!(InitialApproximationsResponse::from_bytes(&bytes), response);
}

#[test]
fn compute_root_success_round_trip() {
    let root = Point::new(1.4142f64.to_bits(), 0.0001f64.to_bits());
    let result: Result<ComputeRootResponse, MethodError> = Ok(ComputeRootResponse { root });
    let bytes = result.to_bytes();
    assert_eq!(bytes, root.to_bytes());
    assert_eq!(Result::<ComputeRootResponse, MethodError>::from_bytes(&bytes), result);
}

#[test]
fn compute_root_errors_use_nan_sentinel() {
    let cases = [
        (MethodError::NoRootInRange, 0u8),
        (MethodError::MoreThanOneRootInRange, 1u8),
        (MethodError::Diverges, 2u8),
    ];
    for (error, status) in cases {
        let result: Result<ComputeRootResponse, MethodError> = Err(error);
        let bytes = result.to_bytes();
        let marker = f64::from_le_bytes(bytes[..8].try_into().unwrap());
        assert!(marker.is_nan());
        assert_eq!(bytes[8], status);
        assert_eq!(&bytes[9..], &[0u8; 7]);
        assert_eq!(Result::<ComputeRootResponse, MethodError>::from_bytes(&bytes), result);
    }
}

#[test]
fn nan_detection_matches_floats() {
    for value in [f64::NAN, -f64::NAN, 0.0, -0.0, 1.0, f64::INFINITY, f64::NEG_INFINITY, f64::MIN_POSITIVE] {
        assert_eq!(bits_are_nan(value.to_bits()), value.is_nan());
    }
}

#[test]
fn method_error_descriptions() {
    assert_eq!(MethodError::Diverges.to_string(), "Method diverges");
    assert_eq!(MethodError::NoRootInRange.to_string(), "No roots found withing range");
    assert_eq!(
        MethodError::MoreThanOneRootInRange.to_string(),
        "More than one root withing range"
    );
}

#[test]
fn function_points_long_package() {
    let mut bytes = [0u8; 4096];
    for index in 0..256usize {
        let point = Point::new((index as f64).to_bits(), (2.0 * index as f64).to_bits());
        bytes[index * 16..index * 16 + 16].copy_from_slice(&point.to_bytes());
    }
    let response = FunctionPointsResponse::from_long_package(&bytes);
    assert_eq!(response.points.len(), 256);
    assert_eq!(f64::from_bits(response.points[255].x), 255.0);
    assert_eq!(f64::from_bits(response.points[255].y), 510.0);
}

#[test]
fn requests_without_handlers_are_ignored() {
    let connection = Connection::new();
    let bytes = RequestPackage::InitialApproximations.to_bytes();
    assert_eq!(connection.handle_request(&bytes), Action::Ignore);
}

#[test]
fn function_points_for_a_system_stream_twice() {
    let mut connection = Connection::new();
    connection.set_points_handler();
    let single = RequestPackage::FunctionPoints {
        payload: FunctionPointsPayload { mode: EquationModeRaw::SingleEquation, equation_number: 0 },
    };
    assert_eq!(
        connection.handle_request(&single.to_bytes()),
        Action::SendPoints { sources: vec![GraphSource::Equation(0)] }
    );
    let system = RequestPackage::FunctionPoints {
        payload: FunctionPointsPayload { mode: EquationModeRaw::SystemOfEquations, equation_number: 1 },
    };
    assert_eq!(
        connection.handle_request(&system.to_bytes()),
        Action::SendPoints { sources: vec![GraphSource::SystemFirst(1), GraphSource::SystemSecond(1)] }
    );
}

#[test]
fn compute_root_and_bounds_requests_dispatch() {
    let mut connection = Connection::new();
    connection.set_initial_approximation();
    connection.set_compute_root();
    let payload = ComputeRootPayload {
        epsilon: 0.001f64.to_bits(),
        mode: EquationMode::SystemOfEquations { system_number: 0 },
    };
    let request = RequestPackage::ComputeRoot { payload };
    assert_eq!(connection.handle_request(&request.to_bytes()), Action::ComputeRoot { payload });
    assert_eq!(
        connection.handle_request(&RequestPackage::InitialApproximations.to_bytes()),
        Action::SendInitialApproximations
    );
}
