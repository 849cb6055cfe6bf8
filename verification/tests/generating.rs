use modelnet::generation::{create_model_for_rust, gen_model, gen_model_response, Job};
use modelnet::message::MODEL_CONFIG;
use modelnet::{downloadModel, ModelReq};

fn model() -> ModelReq {
    ModelReq::new(1, "picxelate".to_string(), false)
}

#[test]
fn new_keeps_what_it_is_given() {
    let m = ModelReq::new(7, "bucket".to_string(), true);
    assert_eq!((m.id, m.parameters.as_str(), m.public), (7, "bucket", true));
    let c = m.clone();
    assert_eq!((c.id, c.parameters.as_str(), c.public), (7, "bucket", true));
}

#[test]
fn the_definition_comes_from_the_bucket_of_the_model() {
    let d = downloadModel(&model());
    assert_eq!(d.bucket, "picxelate");
    assert_eq!(d.key, "dgp/create_model.py");
    assert_eq!(d.file, "Model/create_model.py");
}

#[test]
fn the_build_runs_the_definition() {
    let b = create_model_for_rust();
    assert_eq!((b.program, b.directory, b.script), ("python3", "./Model", "create_model.py"));
    let file = format!("{}/{}", b.directory, b.script);
    assert_eq!(file, format!("./{}", downloadModel(&model()).file));
}

#[test]
fn the_training_step() {
    let t = gen_model();
    assert_eq!((t.saved_model, t.tag), ("Model/custom_model", "serve"));
    assert_eq!((t.signature, t.output_name), ("train", "output_0"));
    assert_eq!((t.input_name, t.target_name), ("training_input", "training_target"));
    assert_eq!((t.input.dims, t.input.values), (vec![1, 2], vec![1, 1]));
    assert_eq!((t.target.dims, t.target.values), (vec![1, 1], vec![2]));
}

#[test]
fn the_training_tensors_are_full() {
    let t = gen_model();
    for tensor in [t.input, t.target] {
        assert_eq!(tensor.dims.iter().product::<u64>(), tensor.values.len() as u64);
    }
}

#[test]
fn jobs_come_in_order() {
    let jobs = gen_model_response(&model());
    assert_eq!(jobs.len(), 3);
    match &jobs[0] {
        Job::Download(d) => assert_eq!(d.bucket, "picxelate"),
        other => panic!("{:?}", other),
    }
    assert!(matches!(jobs[1], Job::Build(_)));
    assert!(matches!(jobs[2], Job::Train(_)));
}

#[test]
fn the_configuration_is_a_model_in_json() {
    let value: serde_json::Value = serde_json::from_str(MODEL_CONFIG).unwrap();
    assert_eq!(value["id"], 1);
    assert_eq!(value["parameters"], "picxelate");
    assert_eq!(value["public"], false);
    assert_eq!(value.as_object().unwrap().len(), 3);
}
