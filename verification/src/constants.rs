use vstd::prelude::*;

verus! {

/// The preamble that opens every script.
///
/// It imports the plotting modules and defines the Python helpers that a
/// script body may call:
///
/// * `add_to_ea` keeps an artist (a legend, say) in the list that is handed
///   to the bounding-box computation when a figure is saved.
/// * `get_colormap` picks a colormap by index, wrapping around.
/// * `maybe_create_ax3d` creates the 3D axes on first use.
/// * `data_to_axis` and `axis_to_data` convert between data limits and
///   axis limits.
/// * `set_equal_axes` gives x, y (and z) the same scale, so that a circle is
///   drawn as a circle.
pub const PYTHON_HEADER: &'static str = "### file generated by plotpy
import numpy as np
import matplotlib.pyplot as plt
import matplotlib.ticker as tck
import matplotlib.patches as pat
import matplotlib.path as pth
import matplotlib.patheffects as pff
import matplotlib.lines as lns
import matplotlib.transforms as tra
import mpl_toolkits.mplot3d as m3d
NaN = np.NaN
EXTRA_ARTISTS = []
def add_to_ea(obj):
    if obj!=None: EXTRA_ARTISTS.append(obj)
COLORMAPS = [plt.cm.bwr, plt.cm.RdBu, plt.cm.hsv, plt.cm.jet, plt.cm.terrain, plt.cm.pink, plt.cm.Greys]
def get_colormap(idx): return COLORMAPS[idx % len(COLORMAPS)]
AX3D = None
def maybe_create_ax3d():
    global AX3D
    if AX3D == None:
        AX3D = plt.gcf().add_subplot(111, projection='3d')
        AX3D.set_xlabel('x')
        AX3D.set_ylabel('y')
        AX3D.set_zlabel('z')
        add_to_ea(AX3D)
def data_to_axis(coords):
    plt.axis() # must call this first
    return plt.gca().transLimits.transform(coords)
def axis_to_data(coords):
    plt.axis() # must call this first
    return plt.gca().transLimits.inverted().transform(coords)
def set_equal_axes():
    ax = plt.gca()
    if AX3D == None:
        ax.axes.set_aspect('equal')
        return
    try:
        ax.set_box_aspect([1,1,1])
        limits = np.array([ax.get_xlim3d(), ax.get_ylim3d(), ax.get_zlim3d()])
        origin = np.mean(limits, axis=1)
        radius = 0.5 * np.max(np.abs(limits[:, 1] - limits[:, 0]))
        x, y, z = origin
        ax.set_xlim3d([x - radius, x + radius])
        ax.set_ylim3d([y - radius, y + radius])
        ax.set_zlim3d([z - radius, z + radius])
    except:
        import matplotlib
        print('VERSION of MATPLOTLIB = {}'.format(matplotlib.__version__))
        print('ERROR: set_box_aspect is missing in this version of Matplotlib')
";

/// The statement that ends an interactive script: it blocks on standard
/// input, so that a plot window stays open until the process is ended.
pub const PAUSE_DIRECTIVE: &'static str = "input(\"Press any key to close\")";

/// The interpreter that runs a script when no other is configured.
pub const DEFAULT_INTERPRETER: &'static str = "python3";

/// The name of the environment variable whose value, when set, replaces
/// [`DEFAULT_INTERPRETER`].
pub const INTERPRETER_VARIABLE: &'static str = "PLOTPY_PYTHON";

} // verus!
