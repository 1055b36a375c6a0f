//! Host image commands and the device directives that carry them out.

use crate::pipeline::{
    prepare, render, spec_prepare, spec_render, tiles_view, DecodedImage, ImageError,
    NativeBitmap, Raster, RenderTarget,
};
use crate::registry::{DeviceProfile, LogicalPosition};
use vstd::prelude::*;

verus! {

/// Which part of the device a host event addresses.
#[derive(Debug, Clone, Copy, PartialEq, Eq, Structural)]
pub enum Controller {
    Keypad,
    Encoder,
}

/// A host request to show or clear an image.
#[derive(Debug, Clone)]
pub struct SetImageEvent {
    pub controller: Controller,
    pub position: Option<u8>,
    /// The image as a data URL; `None` clears.
    pub image: Option<String>,
}

/// What a session is asked to do to the displays. `I` is the picture:
/// `DecodedImage` in running code, `Raster` in contracts.
#[derive(Debug, Clone)]
pub enum ImageCommand<I> {
    SetImage(RenderTarget, I),
    Clear(LogicalPosition),
    /// Clear the whole device.
    ClearAll,
    /// Clear every touch zone.
    ClearStrip,
}

/// One step of the wire protocol. `B` is the bitmap: `NativeBitmap` in
/// running code, `Raster` in contracts.
#[derive(Debug, Clone)]
pub enum Directive<B> {
    /// Write a bitmap to the tile at a wire index.
    Write(u8, B),
    /// Blank the tile at a wire index.
    Blank(u8),
    /// Make buffered writes visible.
    Flush,
    /// Set the backlight, in percent.
    Brightness(u8),
    /// Tell the device that the host is leaving.
    PowerOff,
}

impl View for ImageCommand<DecodedImage> {
    type V = ImageCommand<Raster>;

    open spec fn view(&self) -> ImageCommand<Raster> {
        match self {
            ImageCommand::SetImage(target, image) => ImageCommand::SetImage(*target, image@),
            ImageCommand::Clear(pos) => ImageCommand::Clear(*pos),
            ImageCommand::ClearAll => ImageCommand::ClearAll,
            ImageCommand::ClearStrip => ImageCommand::ClearStrip,
        }
    }
}

impl View for Directive<NativeBitmap> {
    type V = Directive<Raster>;

    open spec fn view(&self) -> Directive<Raster> {
        match self {
            Directive::Write(index, bitmap) => Directive::Write(*index, bitmap@),
            Directive::Blank(index) => Directive::Blank(*index),
            Directive::Flush => Directive::Flush,
            Directive::Brightness(percent) => Directive::Brightness(*percent),
            Directive::PowerOff => Directive::PowerOff,
        }
    }
}

/// Directives as plain values.
pub open spec fn directives_view(ds: Seq<Directive<NativeBitmap>>) -> Seq<Directive<Raster>> {
    ds.map_values(|d: Directive<NativeBitmap>| d@)
}

/// The command a host event stands for, given what its image payload
/// prepares to. An event that names an image for the whole keypad stands for
/// nothing.
pub open spec fn spec_plan(
    controller: Controller,
    position: Option<u8>,
    prepared: Option<Result<Raster, ImageError>>,
) -> Result<Option<ImageCommand<Raster>>, ImageError> {
    match (controller, position, prepared) {
        (_, _, Some(Err(e))) => Err(e),
        (Controller::Encoder, Some(i), Some(Ok(r))) => Ok(
            Some(ImageCommand::SetImage(RenderTarget::Position(LogicalPosition::Encoder(i)), r)),
        ),
        (Controller::Encoder, None, Some(Ok(r))) => Ok(
            Some(ImageCommand::SetImage(RenderTarget::Strip, r)),
        ),
        (Controller::Encoder, Some(i), None) => Ok(
            Some(ImageCommand::Clear(LogicalPosition::Encoder(i))),
        ),
        (Controller::Encoder, None, None) => Ok(Some(ImageCommand::ClearStrip)),
        (Controller::Keypad, Some(p), Some(Ok(r))) => Ok(
            Some(ImageCommand::SetImage(RenderTarget::Position(LogicalPosition::Key(p)), r)),
        ),
        (Controller::Keypad, None, Some(Ok(r))) => Ok(None),
        (Controller::Keypad, Some(p), None) => Ok(Some(ImageCommand::Clear(LogicalPosition::Key(p)))),
        (Controller::Keypad, None, None) => Ok(Some(ImageCommand::ClearAll)),
    }
}

/// What the image payload of an event prepares to; `None` where it has none.
pub open spec fn spec_prepared(image: Option<String>) -> Option<Result<Raster, ImageError>> {
    match image {
        Some(payload) => Some(spec_prepare(payload@)),
        None => None,
    }
}

pub open spec fn command_wf(command: ImageCommand<DecodedImage>) -> bool {
    command matches ImageCommand::SetImage(_, image) ==> image.wf()
}

/// Turns a host event into a command, decoding its image where it has one.
/// A payload that does not prepare is the event's error.
pub fn plan_set_image(evt: &SetImageEvent) -> (plan: Result<
    Option<ImageCommand<DecodedImage>>,
    ImageError,
>)
    ensures
        match plan {
            Ok(Some(command)) => command_wf(command) && spec_plan(
                evt.controller,
                evt.position,
                spec_prepared(evt.image),
            ) == Ok::<Option<ImageCommand<Raster>>, ImageError>(Some(command@)),
            Ok(None) => spec_plan(evt.controller, evt.position, spec_prepared(evt.image)) == Ok::<
                Option<ImageCommand<Raster>>,
                ImageError,
            >(None),
            Err(e) => spec_plan(evt.controller, evt.position, spec_prepared(evt.image)) == Err::<
                Option<ImageCommand<Raster>>,
                ImageError,
            >(e),
        },
{
    let prepared: Option<DecodedImage> = match &evt.image {
        Some(payload) => match prepare(payload.as_str()) {
            Ok(image) => Some(image),
            Err(e) => {
                return Err(e);
            },
        },
        None => None,
    };
    match evt.controller {
        Controller::Encoder => match (evt.position, prepared) {
            (Some(i), Some(image)) => Ok(
                Some(
                    ImageCommand::SetImage(
                        RenderTarget::Position(LogicalPosition::Encoder(i)),
                        image,
                    ),
                ),
            ),
            (None, Some(image)) => Ok(Some(ImageCommand::SetImage(RenderTarget::Strip, image))),
            (Some(i), None) => Ok(Some(ImageCommand::Clear(LogicalPosition::Encoder(i)))),
            (None, None) => Ok(Some(ImageCommand::ClearStrip)),
        },
        Controller::Keypad => match (evt.position, prepared) {
            (Some(p), Some(image)) => Ok(
                Some(ImageCommand::SetImage(RenderTarget::Position(LogicalPosition::Key(p)), image)),
            ),
            (None, Some(_)) => Ok(None),
            (Some(p), None) => Ok(Some(ImageCommand::Clear(LogicalPosition::Key(p)))),
            (None, None) => Ok(Some(ImageCommand::ClearAll)),
        },
    }
}

/// One write per rendered tile, in order.
pub open spec fn spec_writes(tiles: Seq<(u8, Raster)>) -> Seq<Directive<Raster>> {
    tiles.map_values(|t: (u8, Raster)| Directive::Write(t.0, t.1))
}

/// One blank per grid position below `upto`, in logical order.
pub open spec fn spec_blank_keys(profile: DeviceProfile, upto: int) -> Seq<Directive<Raster>> {
    Seq::new(
        upto as nat,
        |k: int| Directive::Blank(profile.spec_wire_index_of(LogicalPosition::Key(k as u8)).unwrap()),
    )
}

/// One blank per touch zone below `upto`, in logical order.
pub open spec fn spec_blank_zones(profile: DeviceProfile, upto: int) -> Seq<Directive<Raster>> {
    Seq::new(
        upto as nat,
        |z: int|
            Directive::Blank(profile.spec_wire_index_of(LogicalPosition::Encoder(z as u8)).unwrap()),
    )
}

/// The blanks that clear the whole device: every grid position, and every
/// touch zone where the profile says that a full clear covers them.
pub open spec fn spec_blank_all(profile: DeviceProfile) -> Seq<Directive<Raster>> {
    spec_blank_keys(profile, profile.grid_size()) + if profile.clear_covers_zones {
        spec_blank_zones(profile, profile.touch_zones as int)
    } else {
        Seq::empty()
    }
}

/// The directives that carry a command out, without the closing flush.
pub open spec fn spec_body(command: ImageCommand<Raster>, profile: DeviceProfile) -> Seq<
    Directive<Raster>,
> {
    match command {
        ImageCommand::SetImage(target, r) => spec_writes(spec_render(r, profile, target)),
        ImageCommand::Clear(pos) => match profile.spec_wire_index_of(pos) {
            Some(index) => seq![Directive::Blank(index)],
            None => Seq::empty(),
        },
        ImageCommand::ClearAll => spec_blank_all(profile),
        ImageCommand::ClearStrip => spec_blank_zones(profile, profile.touch_zones as int),
    }
}

/// The directives that carry a command out: its writes or blanks, then a
/// flush.
pub open spec fn spec_directives(command: ImageCommand<Raster>, profile: DeviceProfile) -> Seq<
    Directive<Raster>,
> {
    spec_body(command, profile).push(Directive::Flush)
}

fn push_blank_keys(out: &mut Vec<Directive<NativeBitmap>>, profile: &DeviceProfile)
    requires
        profile.wf(),
    ensures
        directives_view(final(out)@) == directives_view(old(out)@) + spec_blank_keys(
            *profile,
            profile.grid_size(),
        ),
{
    let ghost before = directives_view(out@);
    let count: u8 = profile.rows * profile.cols;
    let mut k: u8 = 0;
    assert(directives_view(out@) =~= before + spec_blank_keys(*profile, 0));
    while k < count
        invariant
            profile.wf(),
            count == profile.grid_size(),
            k <= count,
            directives_view(out@) == before + spec_blank_keys(*profile, k as int),
        decreases count - k,
    {
        let ghost earlier = directives_view(out@);
        proof {
            profile.lemma_wire_index_bounds(LogicalPosition::Key(k));
        }
        match profile.wire_index_of(LogicalPosition::Key(k)) {
            Some(index) => {
                out.push(Directive::Blank(index));
            },
            None => {},
        }
        assert(directives_view(out@) =~= earlier.push(
            Directive::Blank(profile.spec_wire_index_of(LogicalPosition::Key(k)).unwrap()),
        ));
        assert(earlier.push(
            Directive::Blank(profile.spec_wire_index_of(LogicalPosition::Key(k)).unwrap()),
        ) =~= before + spec_blank_keys(*profile, k + 1));
        k += 1;
    }
}

fn push_blank_zones(out: &mut Vec<Directive<NativeBitmap>>, profile: &DeviceProfile)
    requires
        profile.wf(),
    ensures
        directives_view(final(out)@) == directives_view(old(out)@) + spec_blank_zones(
            *profile,
            profile.touch_zones as int,
        ),
{
    let ghost before = directives_view(out@);
    let count: u8 = profile.touch_zones;
    let mut z: u8 = 0;
    assert(directives_view(out@) =~= before + spec_blank_zones(*profile, 0));
    while z < count
        invariant
            profile.wf(),
            count == profile.touch_zones,
            z <= count,
            directives_view(out@) == before + spec_blank_zones(*profile, z as int),
        decreases count - z,
    {
        let ghost earlier = directives_view(out@);
        proof {
            profile.lemma_wire_index_bounds(LogicalPosition::Encoder(z));
        }
        match profile.wire_index_of(LogicalPosition::Encoder(z)) {
            Some(index) => {
                out.push(Directive::Blank(index));
            },
            None => {},
        }
        assert(directives_view(out@) =~= earlier.push(
            Directive::Blank(profile.spec_wire_index_of(LogicalPosition::Encoder(z)).unwrap()),
        ));
        assert(earlier.push(
            Directive::Blank(profile.spec_wire_index_of(LogicalPosition::Encoder(z)).unwrap()),
        ) =~= before + spec_blank_zones(*profile, z + 1));
        z += 1;
    }
}

fn push_blank_all(out: &mut Vec<Directive<NativeBitmap>>, profile: &DeviceProfile)
    requires
        profile.wf(),
    ensures
        directives_view(final(out)@) == directives_view(old(out)@) + spec_blank_all(*profile),
{
    let ghost before = directives_view(out@);
    push_blank_keys(out, profile);
    if profile.clear_covers_zones {
        push_blank_zones(out, profile);
    }
    assert(directives_view(out@) =~= before + spec_blank_all(*profile));
}

fn push_writes(out: &mut Vec<Directive<NativeBitmap>>, tiles: Vec<(u8, NativeBitmap)>)
    ensures
        directives_view(final(out)@) == directives_view(old(out)@) + spec_writes(
            tiles_view(tiles@),
        ),
{
    let ghost before = directives_view(out@);
    let ghost all = tiles_view(tiles@);
    let mut rest = tiles;
    let ghost mut done: int = 0;
    while rest.len() > 0
        invariant
            0 <= done <= all.len(),
            rest@.len() == all.len() - done,
            forall|i: int| 0 <= i < rest@.len() ==> (rest@[i].0, rest@[i].1@) == all[done + i],
            out@.len() == before.len() + done,
            forall|i: int| 0 <= i < before.len() ==> out@[i]@ == before[i],
            forall|i: int|
                0 <= i < done ==> out@[before.len() + i]@ == Directive::Write(all[i].0, all[i].1),
        decreases rest@.len(),
    {
        let ghost remaining = rest@;
        let ghost earlier = out@;
        let (index, bitmap) = rest.remove(0);
        assert((remaining[0].0, remaining[0].1@) == all[done + 0]);
        out.push(Directive::Write(index, bitmap));
        assert forall|i: int| 0 <= i < rest@.len() implies (rest@[i].0, rest@[i].1@) == all[done
            + 1 + i] by {
            assert(rest@[i] == remaining[i + 1]);
            assert((remaining[i + 1].0, remaining[i + 1].1@) == all[done + (i + 1)]);
        }
        assert forall|i: int| 0 <= i < before.len() implies out@[i]@ == before[i] by {
            assert(out@[i] == earlier[i]);
        }
        assert forall|i: int| 0 <= i < done + 1 implies out@[before.len() + i]@
            == Directive::Write(all[i].0, all[i].1) by {
            if i < done {
                assert(out@[before.len() + i] == earlier[before.len() + i]);
            }
        }
        proof {
            done = done + 1;
        }
    }
    assert(directives_view(out@) =~= before + spec_writes(all));
}

/// The directives that carry a command out on a device of the given
/// profile. Whatever the command, the last directive is a flush.
pub fn directives_for(command: ImageCommand<DecodedImage>, profile: &DeviceProfile) -> (out: Vec<
    Directive<NativeBitmap>,
>)
    requires
        command_wf(command),
        profile.wf(),
    ensures
        directives_view(out@) == spec_directives(command@, *profile),
        out@.len() > 0,
        out@.last() is Flush,
{
    let mut out: Vec<Directive<NativeBitmap>> = Vec::new();
    let ghost wanted = spec_body(command@, *profile);
    assert(directives_view(out@) =~= Seq::<Directive<Raster>>::empty());
    match command {
        ImageCommand::SetImage(target, image) => {
            let tiles = render(&image, profile, target);
            push_writes(&mut out, tiles);
        },
        ImageCommand::Clear(pos) => {
            match profile.wire_index_of(pos) {
                Some(index) => {
                    out.push(Directive::Blank(index));
                },
                None => {},
            }
        },
        ImageCommand::ClearAll => {
            push_blank_all(&mut out, profile);
        },
        ImageCommand::ClearStrip => {
            push_blank_zones(&mut out, profile);
        },
    }
    assert(directives_view(out@) =~= wanted);
    let ghost body = directives_view(out@);
    out.push(Directive::Flush);
    assert(directives_view(out@) =~= body.push(Directive::Flush));
    out
}

/// What handling a host image event comes to: the event's error, nothing at
/// all, or the directives of its command.
pub open spec fn spec_handle_set_image(profile: DeviceProfile, evt: SetImageEvent) -> Result<
    Seq<Directive<Raster>>,
    ImageError,
> {
    match spec_plan(evt.controller, evt.position, spec_prepared(evt.image)) {
        Ok(Some(command)) => Ok(spec_directives(command, profile)),
        Ok(None) => Ok(Seq::empty()),
        Err(e) => Err(e),
    }
}

/// Handles a host image event for a device of the given profile: decodes
/// the image where there is one and lists the directives to send. An error
/// leaves the device as it is.
pub fn handle_set_image(profile: &DeviceProfile, evt: &SetImageEvent) -> (out: Result<
    Vec<Directive<NativeBitmap>>,
    ImageError,
>)
    requires
        profile.wf(),
    ensures
        match out {
            Ok(ds) => spec_handle_set_image(*profile, *evt) == Ok::<
                Seq<Directive<Raster>>,
                ImageError,
            >(directives_view(ds@)),
            Err(e) => spec_handle_set_image(*profile, *evt) == Err::<
                Seq<Directive<Raster>>,
                ImageError,
            >(e),
        },
        out matches Ok(ds) ==> ds@.len() == 0 || ds@.last() is Flush,
{
    match plan_set_image(evt) {
        Ok(Some(command)) => Ok(directives_for(command, profile)),
        Ok(None) => {
            let ds: Vec<Directive<NativeBitmap>> = Vec::new();
            assert(directives_view(ds@) =~= Seq::<Directive<Raster>>::empty());
            Ok(ds)
        },
        Err(e) => Err(e),
    }
}

} // verus!
