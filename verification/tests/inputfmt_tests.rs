use zkp_pipeline::inputfmt::render_input_json;
use zkp_pipeline::pipeline::PipelineInput;
use zkp_pipeline::point::Point3D;

#[test]
fn renders_the_unit_displacement_input() {
    let input = PipelineInput {
        start_point: Point3D { x: 0, y: 0, z: 0 },
        end_point: Point3D { x: 100_000, y: 0, z: 0 },
        distance_squared: 10_000_000_000,
    };
    let bytes = render_input_json(&input);
    let expected = "{\"point1\":[0,0,0],\"point2\":[100000,0,0],\"distance_squared\":10000000000}";
    assert_eq!(String::from_utf8(bytes).unwrap(), expected);
}

#[test]
fn renders_negative_coordinates_with_sign() {
    let input = PipelineInput {
        start_point: Point3D { x: -5, y: 12, z: -100 },
        end_point: Point3D { x: 0, y: -1, z: 7 },
        distance_squared: 11639,
    };
    let bytes = render_input_json(&input);
    let expected = "{\"point1\":[-5,12,-100],\"point2\":[0,-1,7],\"distance_squared\":11639}";
    assert_eq!(String::from_utf8(bytes).unwrap(), expected);
}

#[test]
fn renders_single_digit_and_zero_metric() {
    let input = PipelineInput {
        start_point: Point3D { x: 0, y: 0, z: 0 },
        end_point: Point3D { x: 0, y: 0, z: 0 },
        distance_squared: 0,
    };
    let bytes = render_input_json(&input);
    let expected = "{\"point1\":[0,0,0],\"point2\":[0,0,0],\"distance_squared\":0}";
    assert_eq!(String::from_utf8(bytes).unwrap(), expected);
}
