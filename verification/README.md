# gstreamer_media

Media pipelines for GStreamer, split in two:

- `src/` is the verified library. It computes the layout of each
  pipeline: which elements are made from which factories, their names and
  properties, the order in which they are added, the static links, the caps
  of the application sink, and where pads that appear at run time go. It also
  decides how an element that asks for a GL context is answered, and holds the
  handles (by address) of the GL display and context objects of the C side.
  Every layout it produces is proved well formed: element names are unique,
  every element is added exactly once, links join existing distinct elements,
  and a new pad has at most one destination.
- `app/` drives GStreamer from those layouts: it makes the elements, builds
  the pipeline, installs the pad and bus callbacks, and calls the C functions
  of the GStreamer GL library.
