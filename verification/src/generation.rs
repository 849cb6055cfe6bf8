//! How a model is generated: its definition is downloaded, a script builds it, and it is trained.

use crate::message::{ModelReq, ModelReqView};
use vstd::arithmetic::mul::lemma_mul_basics;
use vstd::prelude::*;

verus! {

/// The object, in a model's bucket, that defines the model.
pub const DEFINITION_KEY: &'static str = "dgp/create_model.py";

/// The file that a model's definition is downloaded to.
pub const DEFINITION_FILE: &'static str = "Model/create_model.py";

/// The program that runs a model's definition.
pub const BUILD_PROGRAM: &'static str = "python3";

/// The directory in which a model's definition runs.
pub const BUILD_DIRECTORY: &'static str = "./Model";

/// The script that builds a model.
pub const BUILD_SCRIPT: &'static str = "create_model.py";

/// The directory of the built model.
pub const SAVED_MODEL: &'static str = "Model/custom_model";

/// The tag under which a built model is loaded.
pub const SERVING_TAG: &'static str = "serve";

/// The signature of a built model that trains it.
pub const TRAINING_SIGNATURE: &'static str = "train";

/// The input of the training signature that takes the sample.
pub const TRAINING_INPUT: &'static str = "training_input";

/// The input of the training signature that takes the wanted result.
pub const TRAINING_TARGET: &'static str = "training_target";

/// The output of the training signature that gives the loss.
pub const TRAINING_OUTPUT: &'static str = "output_0";

/// An object to download from a storage bucket to a file.
#[derive(Debug)]
pub struct Download {
    pub bucket: String,
    pub key: &'static str,
    pub file: &'static str,
}

/// What a `Download` says.
#[verifier::ext_equal]
pub struct DownloadView {
    pub bucket: Seq<char>,
    pub key: Seq<char>,
    pub file: Seq<char>,
}

impl View for Download {
    type V = DownloadView;

    open spec fn view(&self) -> DownloadView {
        DownloadView { bucket: self.bucket@, key: self.key@, file: self.file@ }
    }
}

/// A script to run.
#[derive(Debug)]
pub struct Build {
    pub program: &'static str,
    pub directory: &'static str,
    pub script: &'static str,
}

/// What a `Build` says.
#[verifier::ext_equal]
pub struct BuildView {
    pub program: Seq<char>,
    pub directory: Seq<char>,
    pub script: Seq<char>,
}

impl View for Build {
    type V = BuildView;

    open spec fn view(&self) -> BuildView {
        BuildView {
            program: self.program@,
            directory: self.directory@,
            script: self.script@,
        }
    }
}

/// A tensor of whole numbers: its dimensions, and its values in row-major order.
#[derive(Debug)]
pub struct Tensor {
    pub dims: Vec<u64>,
    pub values: Vec<u16>,
}

/// What a `Tensor` says.
#[verifier::ext_equal]
pub struct TensorView {
    pub dims: Seq<u64>,
    pub values: Seq<u16>,
}

impl View for Tensor {
    type V = TensorView;

    open spec fn view(&self) -> TensorView {
        TensorView { dims: self.dims@, values: self.values@ }
    }
}

/// The number of values that a tensor with the dimensions `dims` has.
pub open spec fn volume(dims: Seq<u64>) -> nat
    decreases dims.len(),
{
    if dims.len() == 0 {
        1
    } else {
        volume(dims.drop_last()) * dims.last() as nat
    }
}

/// One step of training: the model, its signature, and what the signature's inputs get.
#[derive(Debug)]
pub struct Training {
    pub saved_model: &'static str,
    pub tag: &'static str,
    pub signature: &'static str,
    pub input_name: &'static str,
    pub input: Tensor,
    pub target_name: &'static str,
    pub target: Tensor,
    pub output_name: &'static str,
}

/// What a `Training` says.
#[verifier::ext_equal]
pub struct TrainingView {
    pub saved_model: Seq<char>,
    pub tag: Seq<char>,
    pub signature: Seq<char>,
    pub input_name: Seq<char>,
    pub input: TensorView,
    pub target_name: Seq<char>,
    pub target: TensorView,
    pub output_name: Seq<char>,
}

impl View for Training {
    type V = TrainingView;

    open spec fn view(&self) -> TrainingView {
        TrainingView {
            saved_model: self.saved_model@,
            tag: self.tag@,
            signature: self.signature@,
            input_name: self.input_name@,
            input: self.input@,
            target_name: self.target_name@,
            target: self.target@,
            output_name: self.output_name@,
        }
    }
}

/// One of the jobs that generate a model.
#[derive(Debug)]
pub enum Job {
    Download(Download),
    Build(Build),
    Train(Training),
}

/// What a `Job` says.
#[verifier::ext_equal]
pub enum JobView {
    Download(DownloadView),
    Build(BuildView),
    Train(TrainingView),
}

impl View for Job {
    type V = JobView;

    open spec fn view(&self) -> JobView {
        match self {
            Job::Download(d) => JobView::Download(d@),
            Job::Build(b) => JobView::Build(b@),
            Job::Train(t) => JobView::Train(t@),
        }
    }
}

/// What each job of a list says.
pub open spec fn jobs_view(jobs: Seq<Job>) -> Seq<JobView> {
    jobs.map_values(|j: Job| j@)
}

/// The download of the definition of `model`.
pub open spec fn download(model: ModelReqView) -> DownloadView {
    DownloadView { bucket: model.parameters, key: DEFINITION_KEY@, file: DEFINITION_FILE@ }
}

/// The run of a downloaded definition.
pub open spec fn build() -> BuildView {
    BuildView { program: BUILD_PROGRAM@, directory: BUILD_DIRECTORY@, script: BUILD_SCRIPT@ }
}

/// The training of a built model: one sample of two ones, whose wanted result is two.
pub open spec fn training() -> TrainingView {
    TrainingView {
        saved_model: SAVED_MODEL@,
        tag: SERVING_TAG@,
        signature: TRAINING_SIGNATURE@,
        input_name: TRAINING_INPUT@,
        input: TensorView { dims: seq![1, 2], values: seq![1, 1] },
        target_name: TRAINING_TARGET@,
        target: TensorView { dims: seq![1, 1], values: seq![2] },
        output_name: TRAINING_OUTPUT@,
    }
}

/// The jobs that generate `model`, in order.
pub open spec fn generation(model: ModelReqView) -> Seq<JobView> {
    seq![
        JobView::Download(download(model)),
        JobView::Build(build()),
        JobView::Train(training()),
    ]
}

/// What to download for `m`: its definition, from the bucket that its parameters name.
#[allow(non_snake_case)]
pub fn downloadModel(m: &ModelReq) -> (d: Download)
    ensures
        d@ == download(m@),
{
    Download { bucket: m.parameters.clone(), key: DEFINITION_KEY, file: DEFINITION_FILE }
}

/// What to run once a model's definition is there.
pub fn create_model_for_rust() -> (b: Build)
    ensures
        b@ == build(),
{
    Build { program: BUILD_PROGRAM, directory: BUILD_DIRECTORY, script: BUILD_SCRIPT }
}

/// How to train a model once it is built.
pub fn gen_model() -> (t: Training)
    ensures
        t@ == training(),
{
    let input_dims: Vec<u64> = vec![1, 2];
    let input_values: Vec<u16> = vec![1, 1];
    let target_dims: Vec<u64> = vec![1, 1];
    let target_values: Vec<u16> = vec![2];
    assert(input_dims@ =~= seq![1u64, 2u64]);
    assert(input_values@ =~= seq![1u16, 1u16]);
    assert(target_dims@ =~= seq![1u64, 1u64]);
    assert(target_values@ =~= seq![2u16]);
    Training {
        saved_model: SAVED_MODEL,
        tag: SERVING_TAG,
        signature: TRAINING_SIGNATURE,
        input_name: TRAINING_INPUT,
        input: Tensor { dims: input_dims, values: input_values },
        target_name: TRAINING_TARGET,
        target: Tensor { dims: target_dims, values: target_values },
        output_name: TRAINING_OUTPUT,
    }
}

/// The jobs that generate `model`, in the order in which they are to be done.
pub fn gen_model_response(model: &ModelReq) -> (jobs: Vec<Job>)
    ensures
        jobs_view(jobs@) == generation(model@),
{
    let mut jobs: Vec<Job> = Vec::new();
    jobs.push(Job::Download(downloadModel(model)));
    jobs.push(Job::Build(create_model_for_rust()));
    jobs.push(Job::Train(gen_model()));
    assert(jobs_view(jobs@) =~= generation(model@));
    jobs
}

/// The script that the build runs is the file that the download wrote, whatever the model.
pub proof fn lemma_build_runs_the_download(model: ModelReqView)
    ensures
        build().directory + "/"@ + build().script == "./"@ + download(model).file,
{
    reveal_strlit("./Model");
    reveal_strlit("/");
    reveal_strlit("create_model.py");
    reveal_strlit("./");
    reveal_strlit("Model/create_model.py");
    assert(BUILD_DIRECTORY@ + "/"@ + BUILD_SCRIPT@ =~= "./"@ + DEFINITION_FILE@);
}

/// The tensors that train a model have as many values as their dimensions ask for.
pub proof fn lemma_training_tensors_are_full()
    ensures
        volume(training().input.dims) == training().input.values.len(),
        volume(training().target.dims) == training().target.values.len(),
{
    lemma_volume_of_rows(2);
    lemma_volume_of_rows(1);
}

/// A tensor of one row has as many values as the row.
proof fn lemma_volume_of_rows(columns: u64)
    ensures
        volume(seq![1, columns]) == columns,
{
    let dims = seq![1, columns];
    let row = seq![1u64];
    assert(dims.drop_last() =~= row);
    assert(row.drop_last() =~= seq![]);
    assert(volume(row.drop_last()) == 1);
    lemma_mul_basics(volume(row.drop_last()) as int);
    lemma_mul_basics(columns as int);
    assert(volume(row) == 1);
    assert(volume(dims) == volume(row) * columns as nat);
}

/// Every model is generated by three jobs: its definition is downloaded from the bucket that it
/// names, built, and trained. Only the bucket depends on the model, and nothing else of the model
/// does anything.
pub proof fn lemma_every_model_is_downloaded_built_and_trained(a: ModelReqView, b: ModelReqView)
    ensures
        generation(a).len() == 3,
        generation(a)[0] == JobView::Download(
            DownloadView {
                bucket: a.parameters,
                key: "dgp/create_model.py"@,
                file: "Model/create_model.py"@,
            },
        ),
        generation(a)[1] is Build,
        generation(a)[2] is Train,
        generation(a)[1] == generation(b)[1],
        generation(a)[2] == generation(b)[2],
        a.parameters == b.parameters <==> generation(a) == generation(b),
{
    if a.parameters == b.parameters {
        assert(generation(a) =~= generation(b));
    } else {
        assert(generation(a)[0]->Download_0.bucket != generation(b)[0]->Download_0.bucket);
    }
}

/// A download on its own is the one that the generation starts with; so are the build and the
/// training that follow it.
pub proof fn lemma_jobs_on_their_own(model: ModelReqView)
    ensures
        generation(model)[0] == JobView::Download(download(model)),
        generation(model)[1] == JobView::Build(build()),
        generation(model)[2] == JobView::Train(training()),
{
}

/// The definition runs under Python, and what it builds is trained with one step: two ones are to
/// give two.
pub proof fn lemma_build_and_training_step(model: ModelReqView)
    ensures
        generation(model)[1] == JobView::Build(
            BuildView {
                program: "python3"@,
                directory: "./Model"@,
                script: "create_model.py"@,
            },
        ),
        generation(model)[2] matches JobView::Train(t) && {
            &&& t.saved_model == "Model/custom_model"@
            &&& t.tag == "serve"@
            &&& t.signature == "train"@
            &&& t.input_name == "training_input"@
            &&& t.input.dims == seq![1u64, 2u64]
            &&& t.input.values == seq![1u16, 1u16]
            &&& t.target_name == "training_target"@
            &&& t.target.dims == seq![1u64, 1u64]
            &&& t.target.values == seq![2u16]
            &&& t.output_name == "output_0"@
        },
{
}

/// A list of jobs says what each of its jobs says, in order.
pub proof fn lemma_jobs_view(jobs: Seq<Job>, i: int)
    requires
        0 <= i < jobs.len(),
    ensures
        jobs_view(jobs).len() == jobs.len(),
        jobs[i] matches Job::Download(d) ==> jobs_view(jobs)[i] == JobView::Download(
            DownloadView { bucket: d.bucket@, key: d.key@, file: d.file@ },
        ),
        jobs[i] matches Job::Build(b) ==> jobs_view(jobs)[i] == JobView::Build(
            BuildView { program: b.program@, directory: b.directory@, script: b.script@ },
        ),
        jobs[i] matches Job::Train(t) ==> jobs_view(jobs)[i] == JobView::Train(
            TrainingView {
                saved_model: t.saved_model@,
                tag: t.tag@,
                signature: t.signature@,
                input_name: t.input_name@,
                input: TensorView { dims: t.input.dims@, values: t.input.values@ },
                target_name: t.target_name@,
                target: TensorView { dims: t.target.dims@, values: t.target.values@ },
                output_name: t.output_name@,
            },
        ),
{
}

} // verus!
