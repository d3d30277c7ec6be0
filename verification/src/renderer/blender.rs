//! The Blender backend: the scene program it runs, the key under which a
//! render is cached, and the split of the frames into jobs.
//!
//! Starting Blender, and reading and writing the cache files, is left to the
//! caller.

use vstd::prelude::*;
use sha2::{Digest, Sha256};
use crate::decimal::{Decimal, spec_clamp_u32, spec_shortest_chars};
use crate::digits::{append_decimal, spec_decimal_chars};
use crate::renderer::timeline::{Timeline, spec_frames, spec_segments_of};
use crate::script::{Color, Layer, Position, Scene, Transform, VideoScript};
use crate::text::str_equal;

verus! {

/// The SHA-256 digest of the UTF-8 bytes of a text, as 64 lower-case
/// hexadecimal digits.
pub uninterp spec fn spec_sha256_hex(text: Seq<char>) -> Seq<char>;

/// A text without the white space at its beginning and at its end.
pub uninterp spec fn spec_trimmed(text: Seq<char>) -> Seq<char>;

/// Hashes the bytes of `text` with `Sha256::digest` of the crate `sha2` and
/// writes the digest in lower-case hexadecimal. The result depends on the
/// text alone.
#[verifier::external_body]
fn sha256_hex(text: &str) -> (hex: String)
    ensures
        hex@ == spec_sha256_hex(text@),
{
    format!("{:x}", Sha256::digest(text))
}

/// `num_cpus::get`: the number of logical processors of this machine.
/// Nothing is promised of it.
#[verifier::external_body]
fn cpu_count() -> (count: usize) {
    num_cpus::get()
}

/// `str::trim`: the text without leading and trailing Unicode white space.
#[verifier::external_body]
fn trimmed(text: &str) -> (inner: &str)
    ensures
        inner@ == spec_trimmed(text@),
{
    text.trim()
}

/// The path with every backslash turned into a slash.
fn with_slashes(path: &str) -> (fixed: String)
    ensures
        fixed@ == spec_with_slashes(path@),
{
    let n: usize = path.unicode_len();
    let mut fixed = String::new();
    assert(fixed@ =~= spec_with_slashes(path@.subrange(0, 0)));
    let mut i: usize = 0;
    while i < n
        invariant
            i <= n,
            n == path@.len(),
            fixed@ == spec_with_slashes(path@.subrange(0, i as int)),
        decreases n - i,
    {
        let c: char = path.get_char(i);
        if c == '\\' {
            proof {
                reveal_strlit("/");
            }
            fixed.append("/");
        } else {
            fixed.append(path.substring_char(i, i + 1));
        }
        assert(fixed@ =~= spec_with_slashes(path@.subrange(0, i as int + 1)));
        i = i + 1;
    }
    assert(path@.subrange(0, n as int) =~= path@);
    fixed
}

/// A path with every backslash turned into a slash.
pub open spec fn spec_with_slashes(path: Seq<char>) -> Seq<char> {
    path.map_values(
        |c: char|
            if c == '\\' {
                '/'
            } else {
                c
            },
    )
}

/// The number of Blender processes for a machine with `cpus` processors:
/// as many as there are processors, but at least one and at most two.
pub open spec fn spec_parallel_jobs(cpus: int) -> int {
    if cpus < 1 {
        1
    } else if cpus > 2 {
        2
    } else {
        cpus
    }
}

/// The frames that one job renders where `total_frames` frames are split
/// among `jobs` jobs: the quotient, rounded up.
pub open spec fn spec_frames_per_job(total_frames: int, jobs: int) -> int {
    (total_frames + jobs - 1) / jobs
}

/// The frames `[start, end)` of job `i`.
pub open spec fn spec_job_range(total_frames: int, jobs: int, i: int) -> (int, int) {
    let per_job = spec_frames_per_job(total_frames, jobs);
    let end = (i + 1) * per_job;
    (
        i * per_job,
        if end > total_frames {
            total_frames
        } else {
            end
        },
    )
}

/// The number of jobs that have a frame to render: jobs are started in
/// order until one would begin at or behind the last frame.
pub open spec fn spec_job_count(total_frames: int, jobs: int, n: int) -> int
    decreases n,
{
    if n <= 0 {
        0
    } else if spec_job_count(total_frames, jobs, n - 1) == n - 1 && spec_job_range(
        total_frames,
        jobs,
        n - 1,
    ).0 < spec_job_range(total_frames, jobs, n - 1).1 {
        n
    } else {
        spec_job_count(total_frames, jobs, n - 1)
    }
}

/// Whether a render can be skipped: the program and the record of the last
/// render are both there, and the record, white space at its ends apart,
/// is the hash of the program.
pub open spec fn spec_cache_hit(
    cache_file_exists: bool,
    hash_file_exists: bool,
    last_hash: Seq<char>,
    script_hash: Seq<char>,
) -> bool {
    cache_file_exists && hash_file_exists && spec_trimmed(last_hash) == script_hash
}

/// A whole number in decimal, with a minus sign if it is negative.
pub open spec fn spec_int_chars(n: int) -> Seq<char> {
    spec_shortest_chars(n * 1000)
}

/// The beginning of every program: imports, an empty scene, and the helper
/// functions that the layers use.
pub open spec fn spec_program_head() -> Seq<char> {
    "import bpy\nimport math\n\n# Clear scene\nbpy.ops.wm.read_factory_settings(use_empty=True)\n\n"@
        + PYTHON_HELPERS@
}

/// The render settings: frame size and frame rate.
pub open spec fn spec_program_settings(width: u32, height: u32, fps: u32) -> Seq<char> {
    "scene = bpy.context.scene\nscene.render.resolution_x = "@ + spec_decimal_chars(width as nat)
        + "\nscene.render.resolution_y = "@ + spec_decimal_chars(height as nat)
        + "\nscene.render.fps = "@ + spec_decimal_chars(fps as nat) + "\n"@
}

/// The frame range: taken from the command line where it is given there,
/// else `start_frame` to `end_frame`; and the output format.
pub open spec fn spec_program_frames(start_frame: u32, end_frame: u32) -> Seq<char> {
    FRAME_ARGUMENTS@ + "    scene.frame_start = "@ + spec_decimal_chars(start_frame as nat)
        + "\n    scene.frame_end = "@ + spec_decimal_chars(end_frame as nat) + "\n"@
        + "scene.render.image_settings.file_format = 'PNG'\nscene.render.image_settings.color_mode = 'RGBA'\n"@
}

/// The camera: orthographic, ten units above the plane, one unit for each
/// hundred pixels of the frame's height.
pub open spec fn spec_program_camera(height: u32) -> Seq<char> {
    CAMERA_SETUP@ + "cam_data.ortho_scale = "@ + spec_shortest_chars(height as int * 10) + "\n"@
}

/// The name of layer `layer_index` of the scene with id `scene_id`.
pub open spec fn spec_layer_name(kind: Seq<char>, scene_id: Seq<char>, layer_index: int) -> Seq<
    char,
> {
    kind + "_"@ + scene_id + "_"@ + spec_decimal_chars(layer_index as nat)
}

/// The lines that place an object at a pixel position of the frame.
pub open spec fn spec_program_position(
    indent: Seq<char>,
    position: Position,
    width: u32,
    height: u32,
) -> Seq<char> {
    indent + "bx, by = to_blender_coords("@ + spec_int_chars(position.x as int) + ", "@
        + spec_int_chars(position.y as int) + ", "@ + spec_decimal_chars(width as nat) + ", "@
        + spec_decimal_chars(height as nat) + ")\n"@ + indent + "obj.location.x = bx\n"@ + indent
        + "obj.location.y = by\n"@
}

/// The line that shows an object from frame `start` up to frame `end`.
pub open spec fn spec_program_visibility(indent: Seq<char>, start: int, end: int) -> Seq<char> {
    indent + "keyframe_visibility(obj, "@ + spec_decimal_chars(start as nat) + ", "@
        + spec_decimal_chars(end as nat) + ")\n"@
}

/// The part of the program for an image layer: a textured plane of the
/// image's size, placed and scaled as the layer says, visible during the
/// scene.
pub open spec fn spec_program_image(
    name: Seq<char>,
    source: Seq<char>,
    transform: Transform,
    width: u32,
    height: u32,
    start: int,
    end: int,
) -> Seq<char> {
    "\n# Layer: "@ + name + "\nmat, img_w, img_h = create_image_material('Mat_"@ + name + "', '"@
        + spec_with_slashes(source) + "')\n"@ + "if mat:\n    bpy.ops.mesh.primitive_plane_add(size=1)\n    obj = bpy.context.active_object\n    obj.name = '"@
        + name
        + "'\n    obj.data.materials.append(mat)\n    obj.scale.x = img_w / 100.0\n    obj.scale.y = img_h / 100.0\n"@
        + spec_program_position("    "@, transform.position, width, height)
        + "    obj.scale.x *= "@ + spec_shortest_chars(transform.scale.millis as int)
        + "\n    obj.scale.y *= "@ + spec_shortest_chars(transform.scale.millis as int) + "\n"@
        + spec_program_visibility("    "@, start, end)
}

/// The colour of a text as four fractions of 255.
pub open spec fn spec_program_color(color: Color) -> Seq<char> {
    "("@ + spec_decimal_chars(color.r as nat) + " / 255.0, "@ + spec_decimal_chars(color.g as nat)
        + " / 255.0, "@ + spec_decimal_chars(color.b as nat) + " / 255.0, "@ + spec_decimal_chars(
        color.a as nat,
    ) + " / 255.0)"@
}

/// The part of the program for a text layer: a text object with the
/// layer's content, font, size and colour, placed as the layer says,
/// visible during the scene.
pub open spec fn spec_program_text(
    name: Seq<char>,
    content: Seq<char>,
    font: Seq<char>,
    font_size: Decimal,
    color: Color,
    position: Position,
    width: u32,
    height: u32,
    start: int,
    end: int,
) -> Seq<char> {
    "\n# Layer: "@ + name
        + "\nbpy.ops.object.text_add()\nobj = bpy.context.active_object\nobj.name = '"@ + name
        + "'\nobj.data.body = '"@ + content + "'\ntry:\n    fnt = bpy.data.fonts.load('"@
        + spec_with_slashes(font)
        + "')\n    obj.data.font = fnt\nexcept:\n    pass\nobj.data.size = "@
        + spec_shortest_chars(font_size.millis as int)
        + " / 100.0\nmat = create_text_material('Mat_"@ + name + "', "@ + spec_program_color(color)
        + ")\nobj.data.materials.append(mat)\n"@ + spec_program_position(
        Seq::empty(),
        position,
        width,
        height,
    ) + spec_program_visibility(Seq::empty(), start, end)
}

/// The part of the program for one layer. Video layers have none.
pub open spec fn spec_program_layer(
    layer: Layer,
    scene_id: Seq<char>,
    layer_index: int,
    width: u32,
    height: u32,
    start: int,
    end: int,
) -> Seq<char> {
    match layer {
        Layer::Image { source, effects, transform } => spec_program_image(
            spec_layer_name("Image"@, scene_id, layer_index),
            source@,
            transform,
            width,
            height,
            start,
            end,
        ),
        Layer::Text { content, font, font_size, color, position, effects } => spec_program_text(
            spec_layer_name("Text"@, scene_id, layer_index),
            content@,
            font@,
            font_size,
            color,
            position,
            width,
            height,
            start,
            end,
        ),
        Layer::Video { source, effects, transform } => Seq::empty(),
    }
}

/// The parts of the program for the first `n` layers of a scene.
pub open spec fn spec_program_layers(
    scene: Scene,
    width: u32,
    height: u32,
    start: int,
    end: int,
    n: int,
) -> Seq<char>
    decreases n,
{
    if n <= 0 {
        Seq::empty()
    } else {
        spec_program_layers(scene, width, height, start, end, n - 1) + spec_program_layer(
            scene.layers@[n - 1],
            scene.id@,
            n - 1,
            width,
            height,
            start,
            end,
        )
    }
}

/// The parts of the program for the first `n` scenes, each shown during
/// its segment of the timeline.
pub open spec fn spec_program_scenes(scenes: Seq<Scene>, fps: u32, width: u32, height: u32, n: int) -> Seq<
    char,
>
    decreases n,
{
    if n <= 0 {
        Seq::empty()
    } else {
        let segment = crate::renderer::timeline::spec_segment_of(scenes, fps, n - 1);
        spec_program_scenes(scenes, fps, width, height, n - 1) + spec_program_layers(
            scenes[n - 1],
            width,
            height,
            segment.start,
            segment.end,
            scenes[n - 1].layers@.len() as int,
        )
    }
}

/// The whole program for a script.
pub open spec fn spec_program(script: VideoScript, start_frame: u32, end_frame: u32) -> Seq<char> {
    let (width, height) = script.metadata.resolution.spec_dimensions();
    spec_program_head() + spec_program_settings(width, height, script.metadata.fps)
        + spec_program_frames(start_frame, end_frame) + spec_program_camera(height)
        + spec_program_scenes(
        script.scenes@,
        script.metadata.fps,
        width,
        height,
        script.scenes@.len() as int,
    ) + "\n# Render animation\nbpy.ops.render.render(animation=True)\n"@
}

/// The arguments of one Blender job: run in the background the program at
/// `program_path`, for the frames from `start` to `end`, writing to
/// `output_prefix`.
pub open spec fn spec_job_args(
    program_path: Seq<char>,
    start: u32,
    end: u32,
    output_prefix: Seq<char>,
) -> Seq<Seq<char>> {
    seq![
        "-b"@,
        "-P"@,
        program_path,
        "--"@,
        "--start"@,
        spec_decimal_chars(start as nat),
        "--end"@,
        spec_decimal_chars(end as nat),
        "--output"@,
        output_prefix,
    ]
}

/// Renders a script with Blender.
pub struct BlenderRenderer {
    script: VideoScript,
    output_dir: String,
    cache_dir: String,
    parallel_jobs: usize,
}

impl BlenderRenderer {
    /// The script that is rendered.
    pub closed spec fn spec_script(&self) -> VideoScript {
        self.script
    }

    /// Where the frames go.
    pub closed spec fn spec_output_dir(&self) -> Seq<char> {
        self.output_dir@
    }

    /// Where programs and the record of the last render are kept.
    pub closed spec fn spec_cache_dir(&self) -> Seq<char> {
        self.cache_dir@
    }

    /// The number of Blender processes that run side by side.
    pub closed spec fn spec_jobs(&self) -> int {
        self.parallel_jobs as int
    }

    /// There are one or two jobs.
    #[verifier::type_invariant]
    pub open spec fn wf(&self) -> bool {
        1 <= self.spec_jobs() <= 2
    }

    /// A renderer for this machine: one Blender process for each
    /// processor, at most two.
    pub fn new(script: VideoScript, output_dir: String) -> (renderer: BlenderRenderer)
        ensures
            renderer.spec_script() == script,
            renderer.spec_output_dir() == output_dir@,
            renderer.spec_cache_dir() == ".cache/blender"@,
            renderer.wf(),
    {
        let cpus: usize = cpu_count();
        Self::with_processors(script, output_dir, cpus)
    }

    /// A renderer for a machine with `cpus` processors.
    pub fn with_processors(script: VideoScript, output_dir: String, cpus: usize) -> (renderer:
        BlenderRenderer)
        ensures
            renderer.spec_script() == script,
            renderer.spec_output_dir() == output_dir@,
            renderer.spec_cache_dir() == ".cache/blender"@,
            renderer.spec_jobs() == spec_parallel_jobs(cpus as int),
            renderer.wf(),
    {
        let parallel_jobs: usize = if cpus < 1 {
            1
        } else if cpus > 2 {
            2
        } else {
            cpus
        };
        BlenderRenderer {
            script,
            output_dir,
            cache_dir: String::from_str(".cache/blender"),
            parallel_jobs,
        }
    }

    /// The number of Blender processes that run side by side.
    pub fn parallel_jobs(&self) -> (jobs: usize)
        ensures
            jobs == self.spec_jobs(),
    {
        self.parallel_jobs
    }

    /// Where the frames go.
    pub fn output_dir(&self) -> (dir: &str)
        ensures
            dir@ == self.spec_output_dir(),
    {
        self.output_dir.as_str()
    }

    /// Where programs and the record of the last render are kept.
    pub fn cache_dir(&self) -> (dir: &str)
        ensures
            dir@ == self.spec_cache_dir(),
    {
        self.cache_dir.as_str()
    }

    /// The number of frames of the video: `floor(duration * fps)`.
    pub fn total_frames(&self) -> (frames: u32)
        ensures
            frames == spec_clamp_u32(
                spec_frames(self.spec_script().metadata.duration, self.spec_script().metadata.fps),
            ),
    {
        self.script.metadata.duration.scale_u32(self.script.metadata.fps)
    }

    /// Calculate hash of the program: the key of the render cache.
    pub fn calculate_hash(&self, python_script: &str) -> (hash: String)
        ensures
            hash@ == spec_sha256_hex(python_script@),
    {
        sha256_hex(python_script)
    }

    /// Whether the render can be skipped because the last render was of
    /// the same program. `last_hash` is what the record of the last render
    /// holds.
    pub fn is_cache_hit(
        cache_file_exists: bool,
        hash_file_exists: bool,
        last_hash: &str,
        script_hash: &str,
    ) -> (hit: bool)
        ensures
            hit == spec_cache_hit(cache_file_exists, hash_file_exists, last_hash@, script_hash@),
    {
        cache_file_exists && hash_file_exists && str_equal(trimmed(last_hash), script_hash)
    }

    /// The frame ranges `[start, end)` of the jobs, in order. The frames
    /// are split evenly, the last job taking what is left; a job without a
    /// frame, and every job behind it, is left out.
    pub fn job_ranges(&self, total_frames: u32) -> (ranges: Vec<(u32, u32)>)
        ensures
            ranges@.len() == spec_job_count(total_frames as int, self.spec_jobs(), self.spec_jobs()),
            forall|i: int|
                0 <= i < ranges@.len() ==> (#[trigger] ranges@[i]).0 == spec_job_range(
                    total_frames as int,
                    self.spec_jobs(),
                    i,
                ).0 && ranges@[i].1 == spec_job_range(total_frames as int, self.spec_jobs(), i).1,
    {
        proof {
            use_type_invariant(self);
        }
        let jobs: u64 = self.parallel_jobs as u64;
        let total: u64 = total_frames as u64;
        let per_job: u64 = (total + jobs - 1) / jobs;
        assert(per_job <= total) by (nonlinear_arith)
            requires
                per_job == (total + jobs - 1) / (jobs as int),
                jobs >= 1,
                total >= 0,
        ;
        let mut ranges: Vec<(u32, u32)> = Vec::new();
        let mut i: u64 = 0;
        while i < jobs
            invariant
                i <= jobs,
                jobs == self.spec_jobs(),
                jobs >= 1,
                total == total_frames,
                per_job == spec_frames_per_job(total as int, jobs as int),
                per_job <= total,
                ranges@.len() == i,
                ranges@.len() == spec_job_count(total as int, jobs as int, i as int),
                forall|k: int|
                    0 <= k < ranges@.len() ==> (#[trigger] ranges@[k]).0 == spec_job_range(
                        total as int,
                        jobs as int,
                        k,
                    ).0 && ranges@[k].1 == spec_job_range(total as int, jobs as int, k).1,
            decreases jobs - i,
        {
            assert(0 <= i * per_job && (i + 1) * per_job == i * per_job + per_job && (i + 1)
                * per_job <= 0x1_0000_0000_0000_0000 * 0x1_0000_0000) by (nonlinear_arith)
                requires
                    0 <= i < 0x1_0000_0000_0000_0000,
                    0 <= per_job <= 0xffff_ffff,
            ;
            let start: u128 = (i as u128) * (per_job as u128);
            let wide_end: u128 = ((i as u128) + 1) * (per_job as u128);
            let end: u128 = if wide_end > total as u128 {
                total as u128
            } else {
                wide_end
            };
            if start >= end {
                proof {
                    lemma_job_count_stops(total as int, jobs as int, i as int, jobs as int);
                }
                return ranges;
            }
            ranges.push((start as u32, end as u32));
            i = i + 1;
        }
        ranges
    }

    /// The arguments of one Blender job.
    pub fn job_args(program_path: &str, start: u32, end: u32, output_prefix: &str) -> (args: Vec<
        String,
    >)
        ensures
            args@.map_values(|s: String| s@) == spec_job_args(
                program_path@,
                start,
                end,
                output_prefix@,
            ),
    {
        let mut args: Vec<String> = Vec::new();
        args.push(String::from_str("-b"));
        args.push(String::from_str("-P"));
        args.push(String::from_str(program_path));
        args.push(String::from_str("--"));
        args.push(String::from_str("--start"));
        let mut first = String::new();
        append_decimal(&mut first, start as u64);
        assert(first@ =~= spec_decimal_chars(start as nat));
        args.push(first);
        args.push(String::from_str("--end"));
        let mut last = String::new();
        append_decimal(&mut last, end as u64);
        assert(last@ =~= spec_decimal_chars(end as nat));
        args.push(last);
        args.push(String::from_str("--output"));
        args.push(String::from_str(output_prefix));
        assert(args@.map_values(|s: String| s@) =~= spec_job_args(
            program_path@,
            start,
            end,
            output_prefix@,
        ));
        args
    }

    /// Generate the Python program for Blender: settings, camera, and one
    /// object for each image and text layer, visible during its scene.
    /// Paths are written as the script gives them, backslashes as slashes.
    pub fn generate_python_script(&self, start_frame: u32, end_frame: u32) -> (program: String)
        ensures
            program@ == spec_program(self.spec_script(), start_frame, end_frame),
    {
        let (width, height) = self.script.metadata.resolution.dimensions();
        let fps: u32 = self.script.metadata.fps;
        let mut py = String::from_str(
            "import bpy\nimport math\n\n# Clear scene\nbpy.ops.wm.read_factory_settings(use_empty=True)\n\n",
        );
        py.append(PYTHON_HELPERS);
        let ghost head = py@;
        py.append("scene = bpy.context.scene\nscene.render.resolution_x = ");
        append_decimal(&mut py, width as u64);
        py.append("\nscene.render.resolution_y = ");
        append_decimal(&mut py, height as u64);
        py.append("\nscene.render.fps = ");
        append_decimal(&mut py, fps as u64);
        py.append("\n");
        assert(py@ =~= head + spec_program_settings(width, height, fps));
        let ghost settings = py@;
        py.append(FRAME_ARGUMENTS);
        py.append("    scene.frame_start = ");
        append_decimal(&mut py, start_frame as u64);
        py.append("\n    scene.frame_end = ");
        append_decimal(&mut py, end_frame as u64);
        py.append("\n");
        py.append(
            "scene.render.image_settings.file_format = 'PNG'\nscene.render.image_settings.color_mode = 'RGBA'\n",
        );
        assert(py@ =~= settings + spec_program_frames(start_frame, end_frame));
        let ghost frames = py@;
        py.append(CAMERA_SETUP);
        py.append("cam_data.ortho_scale = ");
        Decimal { millis: (height as i64) * 10 }.append_shortest(&mut py);
        py.append("\n");
        assert(py@ =~= frames + spec_program_camera(height));
        let ghost camera = py@;
        let timeline = Timeline::from_script(&self.script);
        let ghost scenes = self.script.scenes@;
        let mut i: usize = 0;
        while i < self.script.scenes.len()
            invariant
                i <= scenes.len(),
                scenes == self.script.scenes@,
                fps == self.script.metadata.fps,
                timeline.wf(),
                timeline.spec_segments() == spec_segments_of(scenes, fps),
                py@ == camera + spec_program_scenes(scenes, fps, width, height, i as int),
            decreases scenes.len() - i,
        {
            let scene = &self.script.scenes[i];
            let (start, end) = match timeline.segment_range(i) {
                Some(range) => range,
                None => (0, 0),
            };
            assert(timeline.spec_segments()[i as int] == crate::renderer::timeline::spec_segment_of(
                scenes,
                fps,
                i as int,
            ));
            append_scene(&mut py, scene, width, height, start, end);
            assert(py@ =~= camera + spec_program_scenes(scenes, fps, width, height, i as int + 1));
            i = i + 1;
        }
        py.append("\n# Render animation\nbpy.ops.render.render(animation=True)\n");
        assert(py@ =~= spec_program(self.spec_script(), start_frame, end_frame));
        py
    }
}

/// Append a whole number in decimal, with its sign.
fn append_int(out: &mut String, n: i32)
    ensures
        final(out)@ == old(out)@ + spec_int_chars(n as int),
{
    Decimal { millis: (n as i64) * 1000 }.append_shortest(out);
}

/// Append the name of a layer.
fn append_layer_name(out: &mut String, kind: &str, scene_id: &str, layer_index: usize)
    ensures
        final(out)@ == old(out)@ + spec_layer_name(kind@, scene_id@, layer_index as int),
{
    out.append(kind);
    out.append("_");
    out.append(scene_id);
    out.append("_");
    append_decimal(out, layer_index as u64);
    assert(out@ =~= old(out)@ + spec_layer_name(kind@, scene_id@, layer_index as int));
}

/// Append the lines that place an object.
fn append_position(out: &mut String, indent: &str, position: &Position, width: u32, height: u32)
    ensures
        final(out)@ == old(out)@ + spec_program_position(indent@, *position, width, height),
{
    out.append(indent);
    out.append("bx, by = to_blender_coords(");
    append_int(out, position.x);
    out.append(", ");
    append_int(out, position.y);
    out.append(", ");
    append_decimal(out, width as u64);
    out.append(", ");
    append_decimal(out, height as u64);
    out.append(")\n");
    out.append(indent);
    out.append("obj.location.x = bx\n");
    out.append(indent);
    out.append("obj.location.y = by\n");
    assert(out@ =~= old(out)@ + spec_program_position(indent@, *position, width, height));
}

/// Append the line that shows an object during a range of frames.
fn append_visibility(out: &mut String, indent: &str, start: u32, end: u32)
    ensures
        final(out)@ == old(out)@ + spec_program_visibility(indent@, start as int, end as int),
{
    out.append(indent);
    out.append("keyframe_visibility(obj, ");
    append_decimal(out, start as u64);
    out.append(", ");
    append_decimal(out, end as u64);
    out.append(")\n");
    assert(out@ =~= old(out)@ + spec_program_visibility(indent@, start as int, end as int));
}

/// Append the colour of a text.
fn append_color(out: &mut String, color: &Color)
    ensures
        final(out)@ == old(out)@ + spec_program_color(*color),
{
    out.append("(");
    append_decimal(out, color.r as u64);
    out.append(" / 255.0, ");
    append_decimal(out, color.g as u64);
    out.append(" / 255.0, ");
    append_decimal(out, color.b as u64);
    out.append(" / 255.0, ");
    append_decimal(out, color.a as u64);
    out.append(" / 255.0)");
    assert(out@ =~= old(out)@ + spec_program_color(*color));
}

/// Append the part of the program for an image layer.
fn append_image(
    out: &mut String,
    name: &str,
    source: &str,
    transform: &Transform,
    width: u32,
    height: u32,
    start: u32,
    end: u32,
)
    ensures
        final(out)@ == old(out)@ + spec_program_image(
            name@,
            source@,
            *transform,
            width,
            height,
            start as int,
            end as int,
        ),
{
    let path = with_slashes(source);
    out.append("\n# Layer: ");
    out.append(name);
    out.append("\nmat, img_w, img_h = create_image_material('Mat_");
    out.append(name);
    out.append("', '");
    out.append(path.as_str());
    out.append("')\n");
    out.append(
        "if mat:\n    bpy.ops.mesh.primitive_plane_add(size=1)\n    obj = bpy.context.active_object\n    obj.name = '",
    );
    out.append(name);
    out.append(
        "'\n    obj.data.materials.append(mat)\n    obj.scale.x = img_w / 100.0\n    obj.scale.y = img_h / 100.0\n",
    );
    proof {
        reveal_strlit("    ");
    }
    append_position(out, "    ", &transform.position, width, height);
    out.append("    obj.scale.x *= ");
    transform.scale.append_shortest(out);
    out.append("\n    obj.scale.y *= ");
    transform.scale.append_shortest(out);
    out.append("\n");
    append_visibility(out, "    ", start, end);
    assert(out@ =~= old(out)@ + spec_program_image(
        name@,
        source@,
        *transform,
        width,
        height,
        start as int,
        end as int,
    ));
}

/// Append the part of the program for a text layer.
fn append_text(
    out: &mut String,
    name: &str,
    content: &str,
    font: &str,
    font_size: Decimal,
    color: &Color,
    position: &Position,
    width: u32,
    height: u32,
    start: u32,
    end: u32,
)
    ensures
        final(out)@ == old(out)@ + spec_program_text(
            name@,
            content@,
            font@,
            font_size,
            *color,
            *position,
            width,
            height,
            start as int,
            end as int,
        ),
{
    let path = with_slashes(font);
    proof {
        reveal_strlit("");
    }
    out.append("\n# Layer: ");
    out.append(name);
    out.append("\nbpy.ops.object.text_add()\nobj = bpy.context.active_object\nobj.name = '");
    out.append(name);
    out.append("'\nobj.data.body = '");
    out.append(content);
    out.append("'\ntry:\n    fnt = bpy.data.fonts.load('");
    out.append(path.as_str());
    out.append("')\n    obj.data.font = fnt\nexcept:\n    pass\nobj.data.size = ");
    font_size.append_shortest(out);
    out.append(" / 100.0\nmat = create_text_material('Mat_");
    out.append(name);
    out.append("', ");
    append_color(out, color);
    out.append(")\nobj.data.materials.append(mat)\n");
    append_position(out, "", position, width, height);
    append_visibility(out, "", start, end);
    assert(out@ =~= old(out)@ + spec_program_text(
        name@,
        content@,
        font@,
        font_size,
        *color,
        *position,
        width,
        height,
        start as int,
        end as int,
    ));
}

/// Append the parts of the program for the layers of a scene.
fn append_scene(out: &mut String, scene: &Scene, width: u32, height: u32, start: u32, end: u32)
    ensures
        final(out)@ == old(out)@ + spec_program_layers(
            *scene,
            width,
            height,
            start as int,
            end as int,
            scene.layers@.len() as int,
        ),
{
    assert(out@ =~= old(out)@ + spec_program_layers(
        *scene,
        width,
        height,
        start as int,
        end as int,
        0,
    ));
    let mut k: usize = 0;
    while k < scene.layers.len()
        invariant
            k <= scene.layers@.len(),
            out@ == old(out)@ + spec_program_layers(
                *scene,
                width,
                height,
                start as int,
                end as int,
                k as int,
            ),
        decreases scene.layers@.len() - k,
    {
        append_layer(out, &scene.layers[k], scene.id.as_str(), k, width, height, start, end);
        assert(out@ =~= old(out)@ + spec_program_layers(
            *scene,
            width,
            height,
            start as int,
            end as int,
            k as int + 1,
        ));
        k = k + 1;
    }
}

/// Append the part of the program for one layer.
fn append_layer(
    out: &mut String,
    layer: &Layer,
    scene_id: &str,
    layer_index: usize,
    width: u32,
    height: u32,
    start: u32,
    end: u32,
)
    ensures
        final(out)@ == old(out)@ + spec_program_layer(
            *layer,
            scene_id@,
            layer_index as int,
            width,
            height,
            start as int,
            end as int,
        ),
{
    match layer {
        Layer::Image { source, effects: _, transform } => {
            let mut name = String::new();
            append_layer_name(&mut name, "Image", scene_id, layer_index);
            assert(name@ =~= spec_layer_name("Image"@, scene_id@, layer_index as int));
            append_image(out, name.as_str(), source.as_str(), transform, width, height, start, end);
        },
        Layer::Text { content, font, font_size, color, position, effects: _ } => {
            let mut name = String::new();
            append_layer_name(&mut name, "Text", scene_id, layer_index);
            assert(name@ =~= spec_layer_name("Text"@, scene_id@, layer_index as int));
            append_text(
                out,
                name.as_str(),
                content.as_str(),
                font.as_str(),
                *font_size,
                color,
                position,
                width,
                height,
                start,
                end,
            );
        },
        Layer::Video { .. } => {
            assert(out@ =~= old(out)@ + Seq::<char>::empty());
        },
    }
}

/// Once a job has no frame, no later job is counted.
pub proof fn lemma_job_count_stops(total_frames: int, jobs: int, i: int, n: int)
    requires
        0 <= i <= n,
        spec_job_count(total_frames, jobs, i) == i,
        i < n ==> spec_job_range(total_frames, jobs, i).0 >= spec_job_range(total_frames, jobs, i).1,
    ensures
        spec_job_count(total_frames, jobs, n) == i,
    decreases n,
{
    if i < n {
        lemma_job_count_stops(total_frames, jobs, i, n - 1);
    }
}

/// The helper functions of every program.
pub const PYTHON_HELPERS: &'static str = r#"
def create_image_material(name, image_path):
    try:
        img = bpy.data.images.load(image_path)
    except:
        print(f"Could not load image: {image_path}")
        return None, 1.0, 1.0

    mat = bpy.data.materials.new(name=name)
    mat.use_nodes = True
    nodes = mat.node_tree.nodes
    links = mat.node_tree.links
    nodes.clear()

    shader = nodes.new('ShaderNodeBsdfPrincipled')
    shader.inputs['Alpha'].default_value = 1.0
    
    tex = nodes.new('ShaderNodeTexImage')
    tex.image = img

    out = nodes.new('ShaderNodeOutputMaterial')

    links.new(tex.outputs['Color'], shader.inputs['Base Color'])
    links.new(tex.outputs['Alpha'], shader.inputs['Alpha'])
    links.new(shader.outputs['BSDF'], out.inputs['Surface'])
    
    mat.blend_method = 'BLEND'
    return mat, img.size[0], img.size[1]

def create_text_material(name, color):
    mat = bpy.data.materials.new(name=name)
    mat.use_nodes = True
    nodes = mat.node_tree.nodes
    links = mat.node_tree.links
    nodes.clear()

    shader = nodes.new('ShaderNodeBsdfPrincipled')
    shader.inputs['Base Color'].default_value = color
    # Add some emission so it pops
    shader.inputs['Emission Color'].default_value = color
    shader.inputs['Emission Strength'].default_value = 0.5

    out = nodes.new('ShaderNodeOutputMaterial')
    links.new(shader.outputs['BSDF'], out.inputs['Surface'])
    
    mat.blend_method = 'BLEND'
    return mat

def keyframe_visibility(obj, start_frame, end_frame):
    # Hide initially
    obj.hide_render = True
    obj.hide_viewport = True
    obj.keyframe_insert(data_path="hide_render", frame=0)
    obj.keyframe_insert(data_path="hide_viewport", frame=0)

    # Show at start
    obj.hide_render = False
    obj.hide_viewport = False
    obj.keyframe_insert(data_path="hide_render", frame=start_frame)
    obj.keyframe_insert(data_path="hide_viewport", frame=start_frame)

    # Hide at end
    obj.hide_render = True
    obj.hide_viewport = True
    obj.keyframe_insert(data_path="hide_render", frame=end_frame)
    obj.keyframe_insert(data_path="hide_viewport", frame=end_frame)

def to_blender_coords(x, y, res_x, res_y):
    # Map 0,0 (top-left) to -W/2, H/2
    # Scale: 100px = 1 unit
    bx = (x - res_x/2) / 100.0
    by = (res_y/2 - y) / 100.0
    return bx, by
"#;

/// The lines that take the frame range and the output path from the
/// command line, up to the branch for a run without arguments.
pub const FRAME_ARGUMENTS: &'static str =
    "import sys\nargv = sys.argv\nif \"--\" in argv:\n    args = argv[argv.index(\"--\") + 1:]\n    if \"--start\" in args:\n        scene.frame_start = int(args[args.index(\"--start\") + 1])\n    if \"--end\" in args:\n        scene.frame_end = int(args[args.index(\"--end\") + 1])\n    if \"--output\" in args:\n        scene.render.filepath = args[args.index(\"--output\") + 1]\nelse:\n";

/// The lines that create the camera.
pub const CAMERA_SETUP: &'static str =
    "\n# Camera setup\ncam_data = bpy.data.cameras.new(name='Camera')\ncam_obj = bpy.data.objects.new(name='Camera', object_data=cam_data)\nscene.collection.objects.link(cam_obj)\nscene.camera = cam_obj\ncam_obj.location = (0, 0, 10)\ncam_data.type = 'ORTHO'\n";

} // verus!
